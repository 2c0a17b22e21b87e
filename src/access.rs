use vstd::prelude::*;

use crate::matching::same_text;

verus! {

/// The scheme word, with its separating space, that opens an
/// `Authorization` header carrying a token.
pub open spec fn bearer_prefix() -> Seq<char> {
    "Bearer "@
}

/// The token of an `Authorization` header value: what follows the
/// `Bearer ` prefix, or `None` where the value does not start with it.
pub fn bearer_token(header: &str) -> (r: Option<String>)
    ensures
        match r {
            Some(t) => header@.len() >= 7 && header@.take(7) == bearer_prefix() && t@
                == header@.skip(7),
            None => !(header@.len() >= 7 && header@.take(7) == bearer_prefix()),
        },
{
    proof {
        reveal_strlit("Bearer ");
    }
    let n = header.unicode_len();
    if n < 7 {
        return None;
    }
    let head = header.substring_char(0, 7);
    if !same_text(head, "Bearer ") {
        proof {
            assert(header@.take(7) =~= head@);
        }
        return None;
    }
    proof {
        assert(header@.take(7) =~= head@);
    }
    let rest = header.substring_char(7, n);
    proof {
        assert(rest@ =~= header@.skip(7));
    }
    Some(String::from_str(rest))
}

/// Whether a request may go on to an administrative action.
#[derive(Debug, Clone, Copy, PartialEq, Eq, Structural)]
pub enum Access {
    Granted,
    /// A valid token whose role is not `admin`.
    Forbidden,
    /// No valid token.
    Unauthorized,
}

/// The access decision for an administrative action, given the role of a
/// valid token (`None`: no valid token was presented).
pub fn admin_access(role: Option<&str>) -> (r: Access)
    ensures
        match role {
            None => r == Access::Unauthorized,
            Some(s) => if s@ == "admin"@ {
                r == Access::Granted
            } else {
                r == Access::Forbidden
            },
        },
{
    match role {
        None => Access::Unauthorized,
        Some(s) => if same_text(s, "admin") {
            Access::Granted
        } else {
            Access::Forbidden
        },
    }
}

} // verus!
