use vstd::prelude::*;

verus! {

/// A metric for scoring the dissimilarity of two equal-length vectors.
/// Equality and hashing go by the variant alone.
#[derive(Debug, Clone, Copy, PartialEq, Eq, Hash, Structural)]
pub enum Distance {
    Euclidean,
    Manhattan,
    CosineSim,
}

/// Failure of a distance computation: the two operand vectors differ in
/// length. Both lengths are carried for diagnostics.
#[derive(Debug, Clone, Copy, PartialEq, Eq, Structural)]
pub enum VectorError {
    DimensionsMismatch { expected: usize, found: usize },
}

/// A character of a candidate name matches a character of a canonical
/// lowercase name when it is that character itself or its ASCII uppercase
/// form (the canonical names use only the letters 'a' through 'z').
pub open spec fn char_matches_lower(a: char, b: char) -> bool {
    a == b || (97 <= b as u32 <= 122 && a as u32 + 32 == b as u32)
}

/// Case-insensitive match of a candidate name against a canonical
/// lowercase name: same length, and each character matches in turn.
pub open spec fn matches_name(s: Seq<char>, t: Seq<char>) -> bool {
    s.len() == t.len() && forall|i: int|
        0 <= i < s.len() ==> #[trigger] char_matches_lower(s[i], t[i])
}

/// The dimension rule that every metric applies before any arithmetic:
/// two vectors are comparable only when their lengths agree. Returns the
/// mismatch error, carrying both lengths, exactly when they differ.
pub fn check_dimensions(expected: usize, found: usize) -> (r: Result<(), VectorError>)
    ensures
        expected == found ==> r == Ok::<(), VectorError>(()),
        expected != found ==> r == Err::<(), VectorError>(
            (VectorError::DimensionsMismatch { expected, found }),
        ),
{
    if expected == found {
        Ok(())
    } else {
        Err(VectorError::DimensionsMismatch { expected, found })
    }
}

impl Distance {
    /// The canonical lowercase name of each variant.
    pub open spec fn spec_name(self) -> Seq<char> {
        match self {
            Distance::Euclidean => "euclidean"@,
            Distance::Manhattan => "manhattan"@,
            Distance::CosineSim => "cosinesim"@,
        }
    }

    /// Which variant, if any, a name designates: the lookup accepts each
    /// canonical name and its single-letter shorthand, ignoring case.
    pub open spec fn spec_from_name(s: Seq<char>) -> Option<Distance> {
        if matches_name(s, "euclidean"@) || matches_name(s, "e"@) {
            Some(Distance::Euclidean)
        } else if matches_name(s, "manhattan"@) || matches_name(s, "m"@) {
            Some(Distance::Manhattan)
        } else if matches_name(s, "cosinesim"@) || matches_name(s, "c"@) {
            Some(Distance::CosineSim)
        } else {
            None
        }
    }

    /// Get the name of this distance metric as a string
    pub fn name(&self) -> (r: &'static str)
        ensures
            r@ == self.spec_name(),
    {
        match self {
            Distance::Euclidean => "euclidean",
            Distance::Manhattan => "manhattan",
            Distance::CosineSim => "cosinesim",
        }
    }

    /// Create a distance metric from a string name
    pub fn from_name(name: &str) -> (r: Option<Distance>)
        ensures
            r == Distance::spec_from_name(name@),
    {
        if eq_ignore_case(name, "euclidean") || eq_ignore_case(name, "e") {
            Some(Distance::Euclidean)
        } else if eq_ignore_case(name, "manhattan") || eq_ignore_case(name, "m") {
            Some(Distance::Manhattan)
        } else if eq_ignore_case(name, "cosinesim") || eq_ignore_case(name, "c") {
            Some(Distance::CosineSim)
        } else {
            None
        }
    }
}

/// Whether a candidate name equals a canonical lowercase name up to
/// ASCII case.
fn eq_ignore_case(s: &str, t: &str) -> (r: bool)
    ensures
        r == matches_name(s@, t@),
{
    let n = s.unicode_len();
    if n != t.unicode_len() {
        return false;
    }
    for i in 0..n
        invariant
            n == s@.len(),
            n == t@.len(),
            forall|j: int| 0 <= j < i ==> #[trigger] char_matches_lower(s@[j], t@[j]),
    {
        let a = s.get_char(i);
        let b = t.get_char(i);
        let au = a as u32;
        let bu = b as u32;
        if !(a == b || (97 <= bu && bu <= 122 && au == bu - 32)) {
            assert(!char_matches_lower(s@[i as int], t@[i as int]));
            return false;
        }
    }
    true
}

/// Name round-trip: parsing a variant's canonical name yields that
/// variant back.
pub proof fn lemma_name_round_trip(d: Distance)
    ensures
        Distance::spec_from_name(d.spec_name()) == Some(d),
{
    reveal_strlit("euclidean");
    reveal_strlit("manhattan");
    reveal_strlit("cosinesim");
    reveal_strlit("e");
    reveal_strlit("m");
    match d {
        Distance::Euclidean => {
            assert(matches_name("euclidean"@, "euclidean"@));
        }
        Distance::Manhattan => {
            assert(!char_matches_lower("manhattan"@[0], "euclidean"@[0]));
            assert(!matches_name("manhattan"@, "euclidean"@));
            assert(!matches_name("manhattan"@, "e"@));
            assert(matches_name("manhattan"@, "manhattan"@));
        }
        Distance::CosineSim => {
            assert(!char_matches_lower("cosinesim"@[0], "euclidean"@[0]));
            assert(!matches_name("cosinesim"@, "euclidean"@));
            assert(!matches_name("cosinesim"@, "e"@));
            assert(!char_matches_lower("cosinesim"@[0], "manhattan"@[0]));
            assert(!matches_name("cosinesim"@, "manhattan"@));
            assert(!matches_name("cosinesim"@, "m"@));
            assert(matches_name("cosinesim"@, "cosinesim"@));
        }
    }
}

} // verus!
