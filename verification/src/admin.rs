//! Checks and conversions of the admin interface's requests and forms.

use vstd::prelude::*;
use crate::error::{AppError, ErrorKind};
use crate::keys::fails_with;
use crate::models::{opt_view, CreateKeyForm, CreateKeyRequest, PatchKeyRequest, UpdateKeyForm};
use crate::text::{trim, trim_str};

verus! {

/// The name of a key to create, trimmed; refused where it is empty or the limit is not
/// positive.
pub fn validate_create_request(req: &CreateKeyRequest) -> (r: Result<String, AppError>)
    ensures
        trim(req.name@).len() == 0 <==> fails_with(r, ErrorKind::BadRequest, "name cannot be empty"@),
        (trim(req.name@).len() > 0 && req.token_limit <= 0) <==> fails_with(
            r,
            ErrorKind::BadRequest,
            "token_limit must be > 0"@,
        ),
        r is Ok <==> (trim(req.name@).len() > 0 && req.token_limit > 0),
        r matches Ok(n) ==> n@ == trim(req.name@),
{
    proof {
        reveal_strlit("name cannot be empty");
        reveal_strlit("token_limit must be > 0");
        assert("name cannot be empty"@[0] != "token_limit must be > 0"@[0]);
    }
    let name = trim_str(req.name.as_str());
    if name.unicode_len() == 0 {
        return Err(AppError::bad_request("name cannot be empty"));
    }
    if req.token_limit <= 0 {
        return Err(AppError::bad_request("token_limit must be > 0"));
    }
    Ok(String::from_str(name))
}

/// The creation request of the admin form, with the name trimmed; `None` where the name is
/// empty or the limit is not positive.
pub fn create_request_from_form(form: CreateKeyForm) -> (r: Option<CreateKeyRequest>)
    ensures
        r is None <==> (trim(form.name@).len() == 0 || form.token_limit <= 0),
        r matches Some(q) ==> q.name@ == trim(form.name@) && q.token_limit == form.token_limit
            && q.notes == form.notes,
{
    let name = String::from_str(trim_str(form.name.as_str()));
    if name.as_str().unicode_len() == 0 || form.token_limit <= 0 {
        return None;
    }
    Some(CreateKeyRequest { name, token_limit: form.token_limit, notes: form.notes })
}

/// The edit that the admin update form asks for: name, limit and notes (empty where
/// absent), and no status change.
pub fn patch_from_update_form(form: UpdateKeyForm) -> (r: PatchKeyRequest)
    ensures
        r.name == Some(form.name),
        r.token_limit == Some(form.token_limit),
        opt_view(r.notes) == Some(match form.notes {
            Some(n) => n@,
            None => Seq::<char>::empty(),
        }),
        r.status is None,
{
    let notes = match form.notes {
        Some(n) => n,
        None => String::new(),
    };
    PatchKeyRequest {
        name: Some(form.name),
        token_limit: Some(form.token_limit),
        notes: Some(notes),
        status: None,
    }
}

/// Where the admin page goes after creating a key: the dashboard with the new key shown.
pub fn created_redirect(api_key: &str) -> (r: String)
    ensures
        r@ == "/admin?msg=created&new_key="@ + api_key@,
{
    let mut s = String::from_str("/admin?msg=created&new_key=");
    s.append(api_key);
    s
}

} // verus!
