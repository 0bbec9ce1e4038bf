use vstd::prelude::*;
use vstd::std_specs::cmp::PartialEqSpecImpl;

verus! {

/// The credential of one authenticated session: three opaque bearer strings.
///
/// Nothing is assumed about their structure. A credential is always replaced
/// as a whole, never field by field.
#[derive(Debug)]
pub struct Tokens {
    pub access_token: String,
    pub id_token: String,
    pub refresh_token: String,
}

impl Tokens {
    /// The three strings as text.
    pub open spec fn texts(&self) -> (Seq<char>, Seq<char>, Seq<char>) {
        (self.access_token@, self.id_token@, self.refresh_token@)
    }
}

impl Clone for Tokens {
    fn clone(&self) -> (copy: Self)
        ensures
            copy == *self,
    {
        Tokens {
            access_token: self.access_token.clone(),
            id_token: self.id_token.clone(),
            refresh_token: self.refresh_token.clone(),
        }
    }
}

impl PartialEq for Tokens {
    fn eq(&self, other: &Self) -> (same: bool) {
        self.access_token == other.access_token && self.id_token == other.id_token
            && self.refresh_token == other.refresh_token
    }
}

impl PartialEqSpecImpl for Tokens {
    open spec fn obeys_eq_spec() -> bool {
        true
    }

    open spec fn eq_spec(&self, other: &Self) -> bool {
        self.texts() == other.texts()
    }
}

impl Eq for Tokens {

}

} // verus!
