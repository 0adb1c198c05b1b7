//! GitHub usernames as given on the command line.

use vstd::prelude::*;

use crate::domain::InputError;
use crate::text::{lemma_trim_idempotent, trim, trim_str};

verus! {

/// A username: the text given, without surrounding whitespace, and never empty.
pub struct Username {
    value: String,
}

impl View for Username {
    type V = Seq<char>;

    closed spec fn view(&self) -> Seq<char> {
        self.value@
    }
}

impl Username {
    #[verifier::type_invariant]
    spec fn well_formed(self) -> bool {
        &&& self.value@.len() > 0
        &&& trim(self.value@) == self.value@
    }

    /// `value` without surrounding whitespace, refused when nothing is left.
    pub fn try_from(value: String) -> (r: Result<Username, InputError>)
        ensures
            r is Ok <==> trim(value@).len() > 0,
            r matches Ok(u) ==> u@ == trim(value@),
            r matches Err(e) ==> e == InputError::EmptyUsername,
    {
        let trimmed = trim_str(value.as_str());
        proof {
            lemma_trim_idempotent(value@);
        }
        if trimmed.is_empty() {
            Err(InputError::EmptyUsername)
        } else {
            Ok(Username { value: trimmed.to_owned() })
        }
    }

    pub fn as_str(&self) -> (r: &str)
        ensures
            r@ == self@,
            r@.len() > 0,
            trim(r@) == r@,
    {
        proof {
            use_type_invariant(self);
        }
        self.value.as_str()
    }
}

/// A username given again as text is accepted and comes back unchanged: when
/// `text` makes a username (whose view is `trim(text)`), `trim(text)` in turn
/// makes one with the same view.
pub proof fn lemma_username_revalidates(text: Seq<char>)
    requires
        trim(text).len() > 0,
    ensures
        trim(trim(text)).len() > 0,
        trim(trim(text)) == trim(text),
{
    lemma_trim_idempotent(text);
}

} // verus!
