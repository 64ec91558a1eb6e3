use vstd::prelude::*;

verus! {

/// The one source of truth for the current authentication: an optional
/// session token. Absence means that nobody is signed in.
pub struct Session {
    token: Option<String>,
}

impl View for Session {
    type V = Option<Seq<char>>;

    closed spec fn view(&self) -> Option<Seq<char>> {
        match self.token {
            Some(t) => Some(t@),
            None => None,
        }
    }
}

impl Session {
    /// A session in which nobody is signed in.
    pub fn new() -> (r: Session)
        ensures
            r@ == None::<Seq<char>>,
    {
        Session { token: None }
    }

    /// Replaces the token: `Some` on sign-in, `None` on sign-out.
    pub fn set_token(&mut self, token: Option<String>)
        ensures
            final(self)@ == (match token {
                Some(t) => Some(t@),
                None => None::<Seq<char>>,
            }),
    {
        self.token = token;
    }

    /// The current token, if somebody is signed in.
    pub fn token(&self) -> (r: Option<&String>)
        ensures
            match r {
                Some(t) => self@ == Some(t@),
                None => self@ == None::<Seq<char>>,
            },
    {
        self.token.as_ref()
    }

    /// Whether somebody is signed in.
    pub fn is_authenticated(&self) -> (r: bool)
        ensures
            r == (self@ is Some),
    {
        self.token.is_some()
    }
}

} // verus!
