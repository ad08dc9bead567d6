//! The secrets that the controller knows by name. Their values stay outside:
//! only references to them are kept.
use crate::requests::{Status, StatusCode, says};
use crate::text::{after_prefix, blank, cat2, cat6, is_blank, is_white_space, same, strip_prefix};
use vstd::prelude::*;
use vstd::string::*;

verus! {

pub const SECRET_VULTR_API_KEY: &'static str = "provider.vultr.api_key";

pub const SECRET_CLOUDFLARE_API_TOKEN: &'static str = "provider.cloudflare.api_token";

pub const SECRET_VULTR_SSH_KEY_ID: &'static str = "bootstrap.vultr.ssh_key_id";

pub const SECRET_SSH_PRIVATE_KEY_PATH: &'static str = "bootstrap.ssh.private_key_path";

/// Whether a secret of that name is known.
pub open spec fn known_secret(name: Seq<char>) -> bool {
    name == SECRET_VULTR_API_KEY@ || name == SECRET_CLOUDFLARE_API_TOKEN@ || name
        == SECRET_VULTR_SSH_KEY_ID@ || name == SECRET_SSH_PRIVATE_KEY_PATH@
}

/// The environment variable of a secret, which has no name where the secret is
/// not known.
pub open spec fn secret_variable(name: Seq<char>) -> Seq<char> {
    if name == SECRET_VULTR_API_KEY@ {
        "VULTR_API_KEY"@
    } else if name == SECRET_CLOUDFLARE_API_TOKEN@ {
        "CLOUDFLARE_API_TOKEN"@
    } else if name == SECRET_VULTR_SSH_KEY_ID@ {
        "EDGE_VULTR_SSH_KEY_ID"@
    } else if name == SECRET_SSH_PRIVATE_KEY_PATH@ {
        "EDGE_SSH_PRIVATE_KEY_PATH"@
    } else {
        ""@
    }
}

/// The environment variable of a secret.
pub fn secret_name_to_env(name: &str) -> (r: &'static str)
    ensures
        r@ == secret_variable(name@),
{
    if same(name, SECRET_VULTR_API_KEY) {
        "VULTR_API_KEY"
    } else if same(name, SECRET_CLOUDFLARE_API_TOKEN) {
        "CLOUDFLARE_API_TOKEN"
    } else if same(name, SECRET_VULTR_SSH_KEY_ID) {
        "EDGE_VULTR_SSH_KEY_ID"
    } else if same(name, SECRET_SSH_PRIVATE_KEY_PATH) {
        "EDGE_SSH_PRIVATE_KEY_PATH"
    } else {
        ""
    }
}

/// The names of the known secrets.
pub fn known_secret_names() -> (r: Vec<&'static str>)
    ensures
        r@ == seq![
            SECRET_VULTR_API_KEY,
            SECRET_CLOUDFLARE_API_TOKEN,
            SECRET_VULTR_SSH_KEY_ID,
            SECRET_SSH_PRIVATE_KEY_PATH,
        ],
{
    let mut names: Vec<&'static str> = Vec::new();
    names.push(SECRET_VULTR_API_KEY);
    names.push(SECRET_CLOUDFLARE_API_TOKEN);
    names.push(SECRET_VULTR_SSH_KEY_ID);
    names.push(SECRET_SSH_PRIVATE_KEY_PATH);
    assert(names@ =~= seq![
        SECRET_VULTR_API_KEY,
        SECRET_CLOUDFLARE_API_TOKEN,
        SECRET_VULTR_SSH_KEY_ID,
        SECRET_SSH_PRIVATE_KEY_PATH,
    ]);
    names
}

/// The secrets whose references are set back to the environment whenever the
/// controller starts, whatever was kept for them.
pub fn runtime_secret_names() -> (r: Vec<&'static str>)
    ensures
        r@ == seq![SECRET_VULTR_API_KEY, SECRET_CLOUDFLARE_API_TOKEN, SECRET_VULTR_SSH_KEY_ID],
{
    let mut names: Vec<&'static str> = Vec::new();
    names.push(SECRET_VULTR_API_KEY);
    names.push(SECRET_CLOUDFLARE_API_TOKEN);
    names.push(SECRET_VULTR_SSH_KEY_ID);
    assert(names@ =~= seq![
        SECRET_VULTR_API_KEY,
        SECRET_CLOUDFLARE_API_TOKEN,
        SECRET_VULTR_SSH_KEY_ID,
    ]);
    names
}

/// Checks that a secret of that name is known.
pub fn validate_secret_name(name: &str) -> (r: Result<(), Status>)
    ensures
        match r {
            Ok(()) => known_secret(name@) && !blank(name@),
            Err(s) => if blank(name@) {
                says(s, StatusCode::InvalidArgument, "secret name is required"@)
            } else {
                !known_secret(name@) && says(
                    s,
                    StatusCode::InvalidArgument,
                    "unsupported secret name: "@ + name@,
                )
            },
        },
{
    if is_blank(name) {
        return Err(Status::invalid_argument("secret name is required".to_owned()));
    }
    if same(name, SECRET_VULTR_API_KEY) || same(name, SECRET_CLOUDFLARE_API_TOKEN) || same(
        name,
        SECRET_VULTR_SSH_KEY_ID,
    ) || same(name, SECRET_SSH_PRIVATE_KEY_PATH) {
        return Ok(());
    }
    Err(Status::invalid_argument(cat2("unsupported secret name: ", name)))
}

/// Every known secret passes the check on its name and has a variable of its
/// own in the environment.
pub proof fn law_known_secrets_have_their_variables(a: Seq<char>, b: Seq<char>)
    requires
        known_secret(a),
        known_secret(b),
    ensures
        secret_variable(a).len() > 0,
        secret_variable(a) == secret_variable(b) ==> a == b,
{
    reveal_strlit("VULTR_API_KEY");
    reveal_strlit("CLOUDFLARE_API_TOKEN");
    reveal_strlit("EDGE_VULTR_SSH_KEY_ID");
    reveal_strlit("EDGE_SSH_PRIVATE_KEY_PATH");
    assert("VULTR_API_KEY"@.len() == 13);
    assert("CLOUDFLARE_API_TOKEN"@.len() == 20);
    assert("EDGE_VULTR_SSH_KEY_ID"@.len() == 21);
    assert("EDGE_SSH_PRIVATE_KEY_PATH"@.len() == 25);
}

/// The path that a reference holds as it stands, if it holds one.
pub open spec fn literal_path(reference: Seq<char>) -> Option<Seq<char>> {
    after_prefix(reference, "literal:"@)
}

/// Decides on the reference that takes the place of a key's path that was kept
/// as it stands. It is replaced only where the path leads to a file, which
/// `is_file` says.
pub fn normalize_key_reference(stored: &Option<String>, is_file: bool) -> (r: Option<String>)
    ensures
        match r {
            Some(reference) => {
                &&& is_file
                &&& *stored matches Some(s)
                &&& literal_path(s@) matches Some(path)
                &&& reference@ == "path:"@ + path
            },
            None => !is_file || *stored is None || (*stored matches Some(s) && literal_path(
                s@,
            ) is None),
        },
{
    match stored {
        None => None,
        Some(s) => match strip_prefix(s.as_str(), "literal:") {
            None => None,
            Some(path) => {
                if is_file {
                    Some(cat2("path:", path))
                } else {
                    None
                }
            },
        },
    }
}

/// The path that a stored reference holds as it stands, if it holds one.
pub fn literal_key_path(stored: &Option<String>) -> (r: Option<String>)
    ensures
        r.deep_view() == match *stored {
            Some(s) => literal_path(s@),
            None => None,
        },
{
    match stored {
        None => None,
        Some(s) => match strip_prefix(s.as_str(), "literal:") {
            None => None,
            Some(path) => Some(path.to_owned()),
        },
    }
}

/// Whether a secret is to be had: its reference is kept, or its variable is
/// set.
pub fn has_configured_secret_ref(kept: bool, variable_set: bool) -> (r: bool)
    ensures
        r == (kept || variable_set),
{
    kept || variable_set
}

/// Chooses the reference to a secret: the one that is kept, or else the default,
/// which is then kept. The second part says whether it has to be kept.
pub fn get_or_seed_secret_ref(kept: Option<String>, default_reference: &str) -> (r: (String, bool))
    ensures
        match kept {
            Some(reference) => r == (reference, false),
            None => r.0@ == default_reference@ && r.1,
        },
{
    match kept {
        Some(reference) => (reference, false),
        None => (default_reference.to_owned(), true),
    }
}

/// The error for a secret that its reference does not lead to.
pub fn unresolved_secret(is_path: bool, name: &str, reference: &str, failure: &str) -> (r: String)
    ensures
        r@ == (if is_path {
            "failed to resolve secret path "@
        } else {
            "failed to resolve secret "@
        }) + name@ + " via "@ + reference@ + ": "@ + failure@,
{
    cat6(
        if is_path {
            "failed to resolve secret path "
        } else {
            "failed to resolve secret "
        },
        name,
        " via ",
        reference,
        ": ",
        failure,
    )
}

/// Exactly the four known secrets may be set, and each is read from a variable
/// of its own; anything else has none.
pub proof fn law_only_known_secrets_are_kept(
    name: &str,
    valid: Result<(), Status>,
    variable: &'static str,
    names: Vec<&'static str>,
    runtime: Vec<&'static str>,
)
    requires
        call_ensures(validate_secret_name, (name,), valid),
        call_ensures(secret_name_to_env, (name,), variable),
        call_ensures(known_secret_names, (), names),
        call_ensures(runtime_secret_names, (), runtime),
    ensures
        valid is Ok <==> exists|i: int| 0 <= i < names@.len() && (#[trigger] names@[i])@ == name@,
        valid is Ok <==> variable@.len() > 0,
        valid matches Err(s) ==> s.code is InvalidArgument,
        names@.len() == 4,
        forall|i: int| 0 <= i < runtime@.len() ==> names@.contains(#[trigger] runtime@[i]),
        name@ == "provider.vultr.api_key"@ ==> variable@ == "VULTR_API_KEY"@,
        name@ == "provider.cloudflare.api_token"@ ==> variable@ == "CLOUDFLARE_API_TOKEN"@,
        name@ == "bootstrap.vultr.ssh_key_id"@ ==> variable@ == "EDGE_VULTR_SSH_KEY_ID"@,
        name@ == "bootstrap.ssh.private_key_path"@ ==> variable@ == "EDGE_SSH_PRIVATE_KEY_PATH"@,
{
    reveal_strlit("provider.vultr.api_key");
    reveal_strlit("provider.cloudflare.api_token");
    reveal_strlit("bootstrap.vultr.ssh_key_id");
    reveal_strlit("bootstrap.ssh.private_key_path");
    reveal_strlit("VULTR_API_KEY");
    reveal_strlit("CLOUDFLARE_API_TOKEN");
    reveal_strlit("EDGE_VULTR_SSH_KEY_ID");
    reveal_strlit("EDGE_SSH_PRIVATE_KEY_PATH");
    reveal_strlit("");
    assert("provider.vultr.api_key"@[0] == 'p');
    assert("provider.cloudflare.api_token"@[0] == 'p');
    assert("bootstrap.vultr.ssh_key_id"@[0] == 'b');
    assert("bootstrap.ssh.private_key_path"@[0] == 'b');
    assert(names@[0]@ == SECRET_VULTR_API_KEY@);
    assert(names@[1]@ == SECRET_CLOUDFLARE_API_TOKEN@);
    assert(names@[2]@ == SECRET_VULTR_SSH_KEY_ID@);
    assert(names@[3]@ == SECRET_SSH_PRIVATE_KEY_PATH@);
    assert(names@.contains(names@[0]) && names@.contains(names@[1]) && names@.contains(names@[2]));
    if known_secret(name@) {
        assert(!is_white_space(name@[0]));
    }
}

/// A reference that is kept is used as it is; only where there is none is the
/// default put in its place, and then it is kept.
pub proof fn law_kept_references_come_first(
    kept: Option<String>,
    default_reference: &str,
    r: (String, bool),
    set: bool,
    has: bool,
)
    requires
        call_ensures(get_or_seed_secret_ref, (kept, default_reference), r),
        call_ensures(has_configured_secret_ref, (kept is Some, set), has),
    ensures
        kept matches Some(reference) ==> r.0 == reference && !r.1,
        kept is None ==> r.0@ == default_reference@ && r.1,
        has <==> kept is Some || set,
{
}

/// A key that is written out as a path becomes a reference to that path where
/// the file is there, and nothing else is touched.
pub proof fn law_written_paths_become_references(
    stored: Option<String>,
    is_file: bool,
    r: Option<String>,
    path: Option<String>,
)
    requires
        call_ensures(normalize_key_reference, (&stored, is_file), r),
        call_ensures(literal_key_path, (&stored,), path),
    ensures
        r is Some <==> is_file && path is Some,
        r matches Some(reference) ==> reference@ == "path:"@ + path->Some_0@ && stored->Some_0@
            == "literal:"@ + path->Some_0@,
        path is Some ==> stored is Some,
{
    if path is Some {
        let s = stored->Some_0@;
        let part = "literal:"@;
        assert(s.subrange(0, part.len() as int) == part);
        assert(s =~= part + s.skip(part.len() as int));
    }
}

} // verus!
