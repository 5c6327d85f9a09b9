//! The branding of the desktop client as the backend serves it.

use crate::models::{ApiResponse, DesktopBranding};
use crate::text::{lowercase, same_text, to_lowercase, trim, trimmed};
use vstd::prelude::*;
use vstd::string::*;

verus! {

/// The path of the branding for a skin name that is trimmed and in lower
/// case: the two known skins are asked for by name, any other name is left
/// out.
pub open spec fn path_for_skin(skin: Option<Seq<char>>) -> Seq<char> {
    match skin {
        Some(s) => if s == "white"@ || s == "dark"@ {
            "/desktop/branding?skin="@ + s
        } else {
            "/desktop/branding"@
        },
        None => "/desktop/branding"@,
    }
}

/// The path of the branding for `skin`, which is trimmed and in lower case.
pub fn skin_path(skin: Option<&str>) -> (path: String)
    ensures
        path@ == path_for_skin(
            match skin {
                Some(s) => Some(s@),
                None => None,
            },
        ),
{
    match skin {
        Some(s) => {
            if same_text(s, "white") || same_text(s, "dark") {
                let mut path = String::from_str("/desktop/branding?skin=");
                path.append(s);
                path
            } else {
                String::from_str("/desktop/branding")
            }
        },
        None => String::from_str("/desktop/branding"),
    }
}

/// The path of the branding for the skin that the UI names, in whatever
/// case and with whatever white space around it.
pub fn branding_path(skin: Option<&str>) -> (path: String)
    ensures
        path@ == path_for_skin(
            match skin {
                Some(s) => Some(lowercase(trimmed(s@))),
                None => None,
            },
        ),
{
    match skin {
        Some(s) => {
            let normalized = to_lowercase(trim(s).as_str());
            skin_path(Some(normalized.as_str()))
        },
        None => skin_path(None),
    }
}

/// The branding in a reply: what the reply holds if it reports success, and
/// none otherwise, in which case the client shows its built-in branding.
pub fn branding_of(reply: ApiResponse<DesktopBranding>) -> (branding: Option<DesktopBranding>)
    ensures
        branding == if reply.success {
            reply.data
        } else {
            None
        },
{
    if reply.success {
        reply.data
    } else {
        None
    }
}

} // verus!
