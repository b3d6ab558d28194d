//! Normalization of a provider's profile response into the profile stored
//! on disk: the first entry of each record list, fixed defaults for missing
//! fields, and the upgrade of a plain-HTTP photo URL.

use vstd::prelude::*;
use vstd::string::*;
use crate::text::{replace_in_str, spec_replace, str_to_chars};

verus! {

/// The profile persisted after a successful login.
pub struct UserProfile {
    pub name: String,
    pub email: String,
    pub avatar: String,
}

/// Mathematical model of a profile: its three texts.
pub ghost struct ProfileModel {
    pub name: Seq<char>,
    pub email: Seq<char>,
    pub avatar: Seq<char>,
}

impl View for UserProfile {
    type V = ProfileModel;

    open spec fn view(&self) -> ProfileModel {
        ProfileModel { name: self.name@, email: self.email@, avatar: self.avatar@ }
    }
}

/// The value carried by the first record of a response list: absent when
/// the list is empty or its first record lacks the field.
pub open spec fn spec_first(list: Seq<Option<String>>) -> Option<Seq<char>> {
    if list.len() > 0 && list[0] is Some {
        Some(list[0]->0@)
    } else {
        None
    }
}

/// A text that opens with the plain-HTTP scheme.
pub open spec fn starts_with_http(s: Seq<char>) -> bool {
    s.len() >= 7 && s.take(7) == "http://"@
}

/// The avatar URL after the scheme upgrade: when the URL opens with
/// `http://`, every occurrence of `http://` in it becomes `https://`.
pub open spec fn spec_upgraded_avatar(a: Seq<char>) -> Seq<char> {
    if starts_with_http(a) {
        spec_replace(a, "http://"@, "https://"@)
    } else {
        a
    }
}

/// The normalized profile: first entries win, a missing display name
/// becomes the fixed placeholder, missing email and photo become empty,
/// and the photo URL is scheme-upgraded.
pub open spec fn spec_profile(
    names: Seq<Option<String>>,
    emails: Seq<Option<String>>,
    photos: Seq<Option<String>>,
) -> ProfileModel {
    ProfileModel {
        name: match spec_first(names) {
            Some(n) => n,
            None => "Spatial User"@,
        },
        email: match spec_first(emails) {
            Some(e) => e,
            None => Seq::empty(),
        },
        avatar: spec_upgraded_avatar(
            match spec_first(photos) {
                Some(p) => p,
                None => Seq::empty(),
            },
        ),
    }
}

/// Take the first record's value out of a response list.
fn first_field(list: &Vec<Option<String>>) -> (r: Option<String>)
    ensures
        r is Some <==> spec_first(list@) is Some,
        r matches Some(s) ==> spec_first(list@) == Some(s@),
{
    if list.len() > 0 {
        match &list[0] {
            Some(s) => Some(s.clone()),
            None => None,
        }
    } else {
        None
    }
}

/// Whether `s` opens with the characters of `pat`.
fn chars_start_with(s: &str, pat: &str) -> (r: bool)
    ensures
        r == (s@.len() >= pat@.len() && s@.take(pat@.len() as int) == pat@),
{
    let sv = str_to_chars(s);
    let pv = str_to_chars(pat);
    if sv.len() < pv.len() {
        return false;
    }
    let mut j: usize = 0;
    while j < pv.len()
        invariant
            sv@ == s@,
            pv@ == pat@,
            pv@.len() <= sv@.len(),
            j <= pv@.len(),
            forall|k: int| 0 <= k < j ==> sv@[k] == pv@[k],
        decreases pv@.len() - j,
    {
        if sv[j] != pv[j] {
            proof {
                assert(s@.take(pat@.len() as int)[j as int] != pat@[j as int]);
            }
            return false;
        }
        j = j + 1;
    }
    proof {
        assert(s@.take(pat@.len() as int) =~= pat@);
    }
    true
}

/// Build the stored profile from the first entries of the response lists.
pub fn normalize_profile(
    names: &Vec<Option<String>>,
    emails: &Vec<Option<String>>,
    photos: &Vec<Option<String>>,
) -> (r: UserProfile)
    ensures
        r@ == spec_profile(names@, emails@, photos@),
{
    let name = match first_field(names) {
        Some(n) => n,
        None => "Spatial User".to_owned(),
    };
    let email = match first_field(emails) {
        Some(e) => e,
        None => String::new(),
    };
    let photo = match first_field(photos) {
        Some(p) => p,
        None => String::new(),
    };
    proof {
        reveal_strlit("http://");
    }
    let avatar = if chars_start_with(photo.as_str(), "http://") {
        replace_in_str(photo.as_str(), "http://", "https://")
    } else {
        photo
    };
    UserProfile { name, email, avatar }
}

/// What the UI is shown: the stored profile, or the fixed guest stand-in
/// when none is stored or the stored one did not parse.
pub fn profile_or_guest(stored: Option<UserProfile>) -> (r: UserProfile)
    ensures
        stored matches Some(p) ==> r == p,
        stored is None ==> r@.name == "Guest User"@ && r@.email == "Not logged in"@ && r@.avatar
            == Seq::<char>::empty(),
{
    match stored {
        Some(p) => p,
        None => UserProfile {
            name: "Guest User".to_owned(),
            email: "Not logged in".to_owned(),
            avatar: String::new(),
        },
    }
}

} // verus!
