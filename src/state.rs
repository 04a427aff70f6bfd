use vstd::prelude::*;

verus! {

/// The state of a hold invoice, as persisted under its payment hash.
#[derive(Debug, Clone, Copy, PartialEq, Eq, Structural)]
pub enum Preimagestate {
    Held,
    Released,
    Rejected,
}

/// What `str::to_lowercase` makes of a string.
pub uninterp spec fn lower_of(s: Seq<char>) -> Seq<char>;

/// The lowercase ASCII letters.
pub open spec fn is_lower_ascii_word(s: Seq<char>) -> bool {
    forall|i: int| 0 <= i < s.len() ==> 'a' <= #[trigger] s[i] <= 'z'
}

/// Relies on `str::to_lowercase`: the result depends on the characters alone,
/// and a string of lowercase ASCII letters is its own lowercase form.
#[verifier::external_body]
fn lowercase(s: &str) -> (r: String)
    ensures
        r@ == lower_of(s@),
        is_lower_ascii_word(s@) ==> r@ == s@,
{
    s.to_lowercase()
}

/// The name under which a state is persisted.
pub open spec fn state_name(s: Preimagestate) -> Seq<char> {
    match s {
        Preimagestate::Held => "held"@,
        Preimagestate::Released => "released"@,
        Preimagestate::Rejected => "rejected"@,
    }
}

/// The state whose persisted name is exactly `s`, if any.
pub open spec fn state_of_name(s: Seq<char>) -> Option<Preimagestate> {
    if s == "held"@ {
        Some(Preimagestate::Held)
    } else if s == "released"@ {
        Some(Preimagestate::Released)
    } else if s == "rejected"@ {
        Some(Preimagestate::Rejected)
    } else {
        None
    }
}

/// The state that a persisted string decodes to, letter case ignored.
pub open spec fn decode_state(s: Seq<char>) -> Option<Preimagestate> {
    state_of_name(lower_of(s))
}

impl Preimagestate {
    /// The persisted name of this state.
    pub fn to_string(&self) -> (r: String)
        ensures
            r@ == state_name(*self),
    {
        match self {
            Preimagestate::Held => "held".to_string(),
            Preimagestate::Released => "released".to_string(),
            Preimagestate::Rejected => "rejected".to_string(),
        }
    }

    /// Decodes a persisted name that is already in lowercase.
    pub fn from_lowercase(s: &str) -> (r: Option<Preimagestate>)
        ensures
            r == state_of_name(s@),
    {
        let owned = s.to_string();
        if owned == "held".to_string() {
            Some(Preimagestate::Held)
        } else if owned == "released".to_string() {
            Some(Preimagestate::Released)
        } else if owned == "rejected".to_string() {
            Some(Preimagestate::Rejected)
        } else {
            None
        }
    }

    /// Decodes a persisted name, letter case ignored; `None` for any other string.
    pub fn from_str(s: &str) -> (r: Option<Preimagestate>)
        ensures
            r == decode_state(s@),
            is_lower_ascii_word(s@) ==> r == state_of_name(s@),
    {
        let lower = lowercase(s);
        Preimagestate::from_lowercase(lower.as_str())
    }
}

/// Every state is decoded back from its own persisted name, which is in
/// lowercase, so that `from_str` and `from_lowercase` both give the state back.
pub proof fn lemma_state_name_round_trip(s: Preimagestate)
    ensures
        state_of_name(state_name(s)) == Some(s),
        is_lower_ascii_word(state_name(s)),
{
    reveal_strlit("held");
    reveal_strlit("released");
    reveal_strlit("rejected");
    assert(is_lower_ascii_word("held"@));
    assert(is_lower_ascii_word("released"@));
    assert(is_lower_ascii_word("rejected"@));
    assert("held"@ != "released"@);
    assert("held"@ != "rejected"@);
    assert("released"@ != "rejected"@) by {
        assert("released"@[2] != "rejected"@[2]);
    }
}

} // verus!
