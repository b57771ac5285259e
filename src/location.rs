use vstd::prelude::*;
use vstd::string::*;
use crate::error::ErrorKind;

verus! {

/// How the command line names the place whose schedule is wanted.
#[derive(Debug, Clone, PartialEq, Eq)]
pub enum LocationRequest {
    /// A city of the bundled table.
    City(String),
    /// A literal "lat,lon" pair.
    Coordinate(String),
}

/// Picks the one location source given: exactly one of `city` and
/// `coordinate` must be present.
pub fn choose_location(city: Option<String>, coordinate: Option<String>) -> (r: Result<LocationRequest, ErrorKind>)
    ensures
        r == (match (city, coordinate) {
            (Some(c), None) => Ok(LocationRequest::City(c)),
            (None, Some(c)) => Ok(LocationRequest::Coordinate(c)),
            _ => Err(ErrorKind::ConfigurationError),
        }),
{
    match (city, coordinate) {
        (Some(c), None) => Ok(LocationRequest::City(c)),
        (None, Some(c)) => Ok(LocationRequest::Coordinate(c)),
        _ => Err(ErrorKind::ConfigurationError),
    }
}

/// `s` is `a`, one comma, then `b`, and neither field holds a comma.
pub open spec fn two_fields(s: Seq<char>, a: Seq<char>, b: Seq<char>) -> bool {
    &&& s == a + seq![','] + b
    &&& !a.contains(',')
    &&& !b.contains(',')
}

/// Number of commas in `s`.
pub open spec fn comma_count(s: Seq<char>) -> nat
    decreases s.len(),
{
    if s.len() == 0 {
        0
    } else {
        comma_count(s.drop_last()) + (if s.last() == ',' { 1nat } else { 0nat })
    }
}

proof fn lemma_comma_count_prefix(s: Seq<char>, k: int)
    requires
        0 <= k <= s.len(),
    ensures
        comma_count(s) >= comma_count(s.subrange(0, k)),
    decreases s.len(),
{
    if k < s.len() {
        lemma_comma_count_prefix(s.drop_last(), k);
        assert(s.drop_last().subrange(0, k) =~= s.subrange(0, k));
    } else {
        assert(s.subrange(0, k) =~= s);
    }
}

/// Splits coordinate text into its two comma-separated fields; any other
/// number of commas is a configuration error.
pub fn split_coordinate(s: &str) -> (r: Result<(String, String), ErrorKind>)
    ensures
        r is Ok <==> comma_count(s@) == 1,
        r matches Ok((a, b)) ==> two_fields(s@, a@, b@),
        r is Err ==> r == Err::<(String, String), ErrorKind>(ErrorKind::ConfigurationError),
        r is Err ==> forall|a: Seq<char>, b: Seq<char>| !two_fields(s@, a, b),
{
    let n = s.unicode_len();
    let mut first: Option<usize> = None;
    let mut i: usize = 0;
    while i < n
        invariant
            n == s@.len(),
            i <= n,
            comma_count(s@.subrange(0, i as int)) == (if first is None { 0nat } else { 1nat }),
            first is None ==> forall|j: int| 0 <= j < i ==> s@[j] != ',',
            first matches Some(x) ==> x < i && s@[x as int] == ',' && forall|j: int|
                0 <= j < i && j != x ==> s@[j] != ',',
        decreases n - i,
    {
        assert(s@.subrange(0, i + 1).drop_last() =~= s@.subrange(0, i as int));
        if s.get_char(i) == ',' {
            match first {
                None => {
                    first = Some(i);
                },
                Some(x) => {
                    proof {
                        assert forall|a: Seq<char>, b: Seq<char>| !two_fields(s@, a, b) by {
                            lemma_no_split_with_two_commas(s@, a, b, x as int, i as int);
                        }
                        lemma_comma_count_prefix(s@, i + 1);
                    }
                    return Err(ErrorKind::ConfigurationError);
                },
            }
        }
        i = i + 1;
    }
    assert(s@.subrange(0, n as int) =~= s@);
    match first {
        None => {
            proof {
                assert forall|a: Seq<char>, b: Seq<char>| !two_fields(s@, a, b) by {
                    if two_fields(s@, a, b) {
                        assert(s@[a.len() as int] == ',');
                    }
                }
            }
            Err(ErrorKind::ConfigurationError)
        },
        Some(x) => {
            let a = String::from_str(s.substring_char(0, x));
            let b = String::from_str(s.substring_char(x + 1, n));
            proof {
                assert(s@ =~= a@ + seq![','] + b@);
                assert(!a@.contains(',')) by {
                    if a@.contains(',') {
                        let j = choose|j: int| 0 <= j < a@.len() && a@[j] == ',';
                        assert(s@[j] == ',');
                    }
                }
                assert(!b@.contains(',')) by {
                    if b@.contains(',') {
                        let j = choose|j: int| 0 <= j < b@.len() && b@[j] == ',';
                        assert(s@[x + 1 + j] == ',');
                    }
                }
            }
            Ok((a, b))
        },
    }
}

proof fn lemma_no_split_with_two_commas(s: Seq<char>, a: Seq<char>, b: Seq<char>, x: int, y: int)
    requires
        0 <= x < y < s.len(),
        s[x] == ',',
        s[y] == ',',
    ensures
        !two_fields(s, a, b),
{
    if two_fields(s, a, b) {
        let p = a.len() as int;
        if x < p {
            assert(a[x] == ',');
        } else if x > p {
            assert(b[x - p - 1] == ',');
        } else {
            assert(b[y - p - 1] == ',');
        }
    }
}

/// The code of `c` with ASCII upper-case letters mapped to lower case.
pub open spec fn ascii_folded(c: char) -> u32 {
    if 65 <= (c as u32) <= 90 {
        (c as u32 + 32) as u32
    } else {
        c as u32
    }
}

/// `a` and `b` are equal once ASCII letters are compared without case.
pub open spec fn eq_ascii_fold(a: Seq<char>, b: Seq<char>) -> bool {
    &&& a.len() == b.len()
    &&& forall|i: int| 0 <= i < a.len() ==> ascii_folded(#[trigger] a[i]) == ascii_folded(b[i])
}

fn fold_char(c: char) -> (r: u32)
    ensures
        r == ascii_folded(c),
{
    let v = c as u32;
    if 65 <= v && v <= 90 {
        v + 32
    } else {
        v
    }
}

/// Whether two strings are equal, comparing ASCII letters without case.
pub fn eq_ignore_ascii_case(a: &str, b: &str) -> (r: bool)
    ensures
        r == eq_ascii_fold(a@, b@),
{
    let n = a.unicode_len();
    if n != b.unicode_len() {
        return false;
    }
    let mut i: usize = 0;
    while i < n
        invariant
            n == a@.len(),
            n == b@.len(),
            i <= n,
            forall|j: int| 0 <= j < i ==> ascii_folded(#[trigger] a@[j]) == ascii_folded(b@[j]),
        decreases n - i,
    {
        if fold_char(a.get_char(i)) != fold_char(b.get_char(i)) {
            return false;
        }
        i = i + 1;
    }
    true
}

/// The first entry of `names` equal to `query` without regard to ASCII case;
/// a name that no entry matches is a lookup error.
pub fn find_city(names: &Vec<String>, query: &str) -> (r: Result<usize, ErrorKind>)
    ensures
        r matches Ok(i) ==> i < names@.len() && eq_ascii_fold(names@[i as int]@, query@)
            && forall|j: int| 0 <= j < i ==> !eq_ascii_fold(#[trigger] names@[j]@, query@),
        r is Err ==> r == Err::<usize, ErrorKind>(ErrorKind::LookupError)
            && forall|j: int| 0 <= j < names@.len() ==> !eq_ascii_fold(#[trigger] names@[j]@, query@),
{
    let mut i: usize = 0;
    while i < names.len()
        invariant
            i <= names@.len(),
            forall|j: int| 0 <= j < i ==> !eq_ascii_fold(#[trigger] names@[j]@, query@),
        decreases names@.len() - i,
    {
        if eq_ignore_ascii_case(names[i].as_str(), query) {
            return Ok(i);
        }
        i = i + 1;
    }
    Err(ErrorKind::LookupError)
}

} // verus!
