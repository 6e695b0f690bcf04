//! Access tokens.

use vstd::prelude::*;
use std::sync::Arc;

verus! {

/// Raw representation of a token.
pub type RawToken = String;

/// A token that stays the same for the life of the bot.
#[derive(Debug)]
pub struct DefaultToken(Arc<RawToken>);

impl View for DefaultToken {
    type V = Seq<char>;

    closed spec fn view(&self) -> Seq<char> {
        (*self.0)@
    }
}

/// `Arc::clone`: another pointer to the same allocation, so to the same value.
#[verifier::external_body]
fn share(a: &Arc<RawToken>) -> (r: Arc<RawToken>)
    ensures
        *r == **a,
{
    Arc::clone(a)
}

impl DefaultToken {
    /// The token that `token` converts to. Where the conversion of `T` into
    /// a `String` has a specification, the token is what it specifies; what
    /// `into` gives for other types is not known here.
    pub fn new<T: Into<String>>(token: T) -> (t: Self)
        ensures
            <T as vstd::std_specs::convert::IntoSpec<String>>::obeys_into_spec() ==> t@
                == <T as vstd::std_specs::convert::IntoSpec<String>>::into_spec(token)@,
    {
        Self(Arc::new(token.into()))
    }

    /// The token `token`, stored as given: no trimming, no check, the empty
    /// string accepted.
    pub fn from_string(token: String) -> (t: Self)
        ensures
            t@ == token@,
    {
        Self(Arc::new(token))
    }

    /// The stored token itself, shared rather than copied.
    pub fn shared_token(&self) -> (s: Arc<RawToken>)
        ensures
            (*s)@ == self@,
    {
        share(&self.0)
    }

    /// The token.
    pub fn token(&self) -> (s: String)
        ensures
            s@ == self@,
    {
        (*self.0).clone()
    }
}

/// Any value that converts into a `String` converts into the token it makes.
impl<T: Into<String>> From<T> for DefaultToken {
    fn from(v: T) -> (t: Self)
        ensures
            <T as vstd::std_specs::convert::IntoSpec<String>>::obeys_into_spec() ==> t@
                == <T as vstd::std_specs::convert::IntoSpec<String>>::into_spec(v)@,
    {
        Self::new(v)
    }
}

impl<T: Into<String>> vstd::std_specs::convert::FromSpecImpl<T> for DefaultToken {
    open spec fn obeys_from_spec() -> bool {
        false
    }

    open spec fn from_spec(v: T) -> DefaultToken {
        choose|t: DefaultToken|
            #[trigger] t.view() == <T as vstd::std_specs::convert::IntoSpec<String>>::into_spec(v)@
    }
}

} // verus!
