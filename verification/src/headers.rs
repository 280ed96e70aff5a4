//! Signing headers and the HTTP header map they are placed in.

use crate::error::SigningFailure;
use reqwest::header::{HeaderMap, HeaderName, HeaderValue};
use std::str::FromStr;
use vstd::prelude::*;

verus! {

/// The most headers that [`header_map_from`] places in one map.
pub const MAX_HEADERS: usize = 1024;

/// The longest header name, in characters.
pub const MAX_HEADER_NAME_LEN: usize = 65535;

/// One header that signing asks to be sent with the request.
#[derive(Debug)]
pub struct SignedHeader {
    pub name: String,
    pub value: String,
}

impl View for SignedHeader {
    type V = (Seq<char>, Seq<char>);

    open spec fn view(&self) -> (Seq<char>, Seq<char>) {
        (self.name@, self.value@)
    }
}

/// The headers as pairs of name and value, in their order.
pub open spec fn pairs_of(headers: Seq<SignedHeader>) -> Seq<(Seq<char>, Seq<char>)> {
    headers.map_values(|header: SignedHeader| header@)
}

/// `c` with an ASCII capital turned into its small letter.
pub open spec fn to_lower(c: char) -> char {
    if 'A' <= c <= 'Z' {
        ((c as u8 + 32) as u8) as char
    } else {
        c
    }
}

/// `text` with every ASCII capital turned into its small letter.
pub open spec fn lowercase(text: Seq<char>) -> Seq<char> {
    text.map_values(|c: char| to_lower(c))
}

/// Whether `c` may stand in a header name: an ASCII letter or digit, or one of
/// ``! # $ % & ' * + - . ^ _ ` | ~``.
pub open spec fn is_header_name_char(c: char) -> bool {
    ||| 'a' <= c <= 'z'
    ||| 'A' <= c <= 'Z'
    ||| '0' <= c <= '9'
    ||| c == '!'
    ||| '#' <= c <= '\''
    ||| c == '*'
    ||| c == '+'
    ||| c == '-'
    ||| c == '.'
    ||| '^' <= c <= '`'
    ||| c == '|'
    ||| c == '~'
}

/// Whether `name` is a header name: not empty, not too long, and made of
/// header name characters.
pub open spec fn is_header_name(name: Seq<char>) -> bool {
    &&& 1 <= name.len() <= MAX_HEADER_NAME_LEN
    &&& forall|i: int| 0 <= i < name.len() ==> is_header_name_char(#[trigger] name[i])
}

/// Whether `c` may stand in a header value: a tab, or anything from the space
/// upwards but the delete character.
pub open spec fn is_header_value_char(c: char) -> bool {
    c == '\t' || (' ' <= c && c != '\x7f')
}

/// Whether `value` is a header value.
pub open spec fn is_header_value(value: Seq<char>) -> bool {
    forall|i: int| 0 <= i < value.len() ==> is_header_value_char(#[trigger] value[i])
}

/// What becomes of placing one header in a map: the name is judged first.
pub open spec fn insert_outcome(name: Seq<char>, value: Seq<char>) -> Result<(), SigningFailure> {
    if !is_header_name(name) {
        Err(SigningFailure::InvalidHeaderName)
    } else if !is_header_value(value) {
        Err(SigningFailure::InvalidHeaderValue)
    } else {
        Ok(())
    }
}

/// The map that holds `pairs`, placed one after the other under their
/// lowercased names, a later value replacing an earlier one of the same name;
/// or the failure of the first pair that cannot be placed.
pub open spec fn header_map_spec(pairs: Seq<(Seq<char>, Seq<char>)>) -> Result<
    Map<Seq<char>, Seq<char>>,
    SigningFailure,
>
    decreases pairs.len(),
{
    if pairs.len() == 0 {
        Ok(Map::empty())
    } else {
        match header_map_spec(pairs.drop_last()) {
            Err(failure) => Err(failure),
            Ok(entries) => match insert_outcome(pairs.last().0, pairs.last().1) {
                Err(failure) => Err(failure),
                Ok(_) => Ok(entries.insert(lowercase(pairs.last().0), pairs.last().1)),
            },
        }
    }
}

/// The entries of a header map that holds nothing.
pub open spec fn no_entries() -> Map<Seq<char>, Seq<char>> {
    Map::empty()
}

/// `http::HeaderMap`, as `reqwest::header` hands it on.
#[verifier::external_type_specification]
#[verifier::external_body]
#[verifier::reject_recursive_types(T)]
pub struct ExHeaderMap<T>(HeaderMap<T>);

/// `http::HeaderValue`, as `reqwest::header` hands it on.
#[verifier::external_type_specification]
#[verifier::external_body]
pub struct ExHeaderValue(HeaderValue);

/// The entries of a header map in which every name has one value: the value's
/// text by the name, which the map keeps in lower case.
pub uninterp spec fn header_map_entries(map: HeaderMap<HeaderValue>) -> Map<Seq<char>, Seq<char>>;

/// `HeaderMap::new`: a map without entries.
#[verifier::external_body]
fn new_header_map() -> (r: HeaderMap<HeaderValue>)
    ensures
        header_map_entries(r) == no_entries(),
{
    HeaderMap::new()
}

/// `HeaderName::from_str`, `HeaderValue::from_str` and `HeaderMap::insert`.
///
/// The name parses exactly when it is a header name, and parses to its lower
/// case; the value parses exactly when it is a header value, and keeps its
/// text. The name is parsed first. If both parse, `insert` makes the value the
/// only one under the name and leaves the other names alone; otherwise the map
/// is not touched. `insert` panics only in a map grown to thousands of entries,
/// which the bound on the map's size keeps away.
#[verifier::external_body]
fn insert_header(map: &mut HeaderMap<HeaderValue>, name: &str, value: &str) -> (r: Result<
    (),
    SigningFailure,
>)
    requires
        header_map_entries(*old(map)).dom().finite(),
        header_map_entries(*old(map)).dom().len() < MAX_HEADERS,
    ensures
        r == insert_outcome(name@, value@),
        r is Ok ==> header_map_entries(*final(map)) == header_map_entries(*old(map)).insert(
            lowercase(name@),
            value@,
        ),
        r is Err ==> header_map_entries(*final(map)) == header_map_entries(*old(map)),
{
    let parsed_name = match HeaderName::from_str(name) {
        Ok(parsed) => parsed,
        Err(_) => return Err(SigningFailure::InvalidHeaderName),
    };
    let parsed_value = match HeaderValue::from_str(value) {
        Ok(parsed) => parsed,
        Err(_) => return Err(SigningFailure::InvalidHeaderValue),
    };
    map.insert(parsed_name, parsed_value);
    Ok(())
}

/// Once a pair cannot be placed, the pairs after it change nothing.
proof fn lemma_failure_persists(pairs: Seq<(Seq<char>, Seq<char>)>, upto: int)
    requires
        0 <= upto <= pairs.len(),
        header_map_spec(pairs.take(upto)) is Err,
    ensures
        header_map_spec(pairs) == header_map_spec(pairs.take(upto)),
    decreases pairs.len(),
{
    if upto == pairs.len() {
        assert(pairs.take(upto) == pairs);
    } else {
        assert(pairs.drop_last().take(upto) == pairs.take(upto));
        lemma_failure_persists(pairs.drop_last(), upto);
    }
}

/// Whether `i` is the place of the last pair under its name.
pub open spec fn is_last_of_its_name(pairs: Seq<(Seq<char>, Seq<char>)>, i: int) -> bool {
    &&& 0 <= i < pairs.len()
    &&& forall|j: int| i < j < pairs.len() ==> lowercase(#[trigger] pairs[j].0) != lowercase(pairs[i].0)
}

/// A map is built exactly when every pair can be placed. It then holds the
/// lowercased names of the pairs and no other, and under each name the value
/// of the last pair of that name.
pub proof fn lemma_header_map_built(pairs: Seq<(Seq<char>, Seq<char>)>)
    ensures
        header_map_spec(pairs) is Ok <==> forall|i: int|
            0 <= i < pairs.len() ==> insert_outcome(
                (#[trigger] pairs[i]).0,
                pairs[i].1,
            ) is Ok,
        header_map_spec(pairs) matches Ok(entries) ==> {
            &&& forall|i: int|
                0 <= i < pairs.len() ==> entries.dom().contains(lowercase((#[trigger] pairs[i]).0))
            &&& forall|name: Seq<char>| #[trigger]
                entries.dom().contains(name) ==> exists|i: int|
                    0 <= i < pairs.len() && lowercase((#[trigger] pairs[i]).0) == name
            &&& forall|i: int| #[trigger]
                is_last_of_its_name(pairs, i) ==> entries[lowercase(pairs[i].0)] == pairs[i].1
        },
    decreases pairs.len(),
{
    if pairs.len() > 0 {
        let front = pairs.drop_last();
        let at_end = pairs.len() - 1;
        lemma_header_map_built(front);
        assert(forall|i: int| 0 <= i < front.len() ==> front[i] == pairs[i]);
        if header_map_spec(pairs) is Ok {
            let entries = header_map_spec(pairs)->Ok_0;
            let before = header_map_spec(front)->Ok_0;
            assert forall|i: int| 0 <= i < pairs.len() implies insert_outcome(
                (#[trigger] pairs[i]).0,
                pairs[i].1,
            ) is Ok by {
                if i < at_end {
                    assert(front[i] == pairs[i]);
                }
            }
            assert forall|i: int| 0 <= i < pairs.len() implies entries.dom().contains(
                lowercase((#[trigger] pairs[i]).0),
            ) by {
                if i < at_end {
                    assert(front[i] == pairs[i]);
                }
            }
            assert forall|name: Seq<char>| #[trigger] entries.dom().contains(name) implies exists|
                i: int,
            |
                0 <= i < pairs.len() && lowercase((#[trigger] pairs[i]).0) == name by {
                if name == lowercase(pairs[at_end].0) {
                    assert(lowercase(pairs[at_end].0) == name);
                } else {
                    assert(before.dom().contains(name));
                    let i = choose|i: int|
                        0 <= i < front.len() && lowercase((#[trigger] front[i]).0) == name;
                    assert(front[i] == pairs[i]);
                }
            }
            assert forall|i: int| #[trigger] is_last_of_its_name(pairs, i) implies entries[lowercase(
                pairs[i].0,
            )] == pairs[i].1 by {
                if i < at_end {
                    assert(lowercase(pairs[at_end].0) != lowercase(pairs[i].0));
                    assert(front[i] == pairs[i]);
                    assert(is_last_of_its_name(front, i)) by {
                        assert forall|j: int| i < j < front.len() implies lowercase(
                            #[trigger] front[j].0,
                        ) != lowercase(front[i].0) by {
                            assert(front[j] == pairs[j]);
                        }
                    }
                }
            }
        } else {
            if header_map_spec(front) is Ok {
                assert(!(insert_outcome(pairs[at_end].0, pairs[at_end].1) is Ok));
            } else {
                let i = choose|i: int|
                    0 <= i < front.len() && !(insert_outcome(
                        (#[trigger] front[i]).0,
                        front[i].1,
                    ) is Ok);
                assert(front[i] == pairs[i]);
            }
        }
    }
}

/// What a header map holds, or why it was not built.
pub open spec fn entries_or_failure(r: Result<HeaderMap<HeaderValue>, SigningFailure>) -> Result<
    Map<Seq<char>, Seq<char>>,
    SigningFailure,
> {
    match r {
        Ok(map) => Ok(header_map_entries(map)),
        Err(failure) => Err(failure),
    }
}

/// Places the signing headers in a fresh header map, in their order.
///
/// Fails at the first header whose name or value cannot be sent, and says
/// which of the two it was.
pub fn header_map_from(headers: &Vec<SignedHeader>) -> (r: Result<
    HeaderMap<HeaderValue>,
    SigningFailure,
>)
    requires
        headers.len() <= MAX_HEADERS,
    ensures
        entries_or_failure(r) == header_map_spec(pairs_of(headers@)),
{
    let ghost pairs = pairs_of(headers@);
    let mut map = new_header_map();
    let mut i: usize = 0;
    proof {
        assert(pairs.take(0) == Seq::<(Seq<char>, Seq<char>)>::empty());
    }
    while i < headers.len()
        invariant
            i <= headers.len() <= MAX_HEADERS,
            pairs == pairs_of(headers@),
            header_map_spec(pairs.take(i as int)) == Ok::<_, SigningFailure>(
                header_map_entries(map),
            ),
            header_map_entries(map).dom().finite(),
            header_map_entries(map).dom().len() <= i,
        decreases headers.len() - i,
    {
        let header = &headers[i];
        proof {
            assert(pairs.take(i + 1).drop_last() == pairs.take(i as int));
            assert(pairs.take(i + 1).last() == (header.name@, header.value@));
        }
        match insert_header(&mut map, header.name.as_str(), header.value.as_str()) {
            Ok(_) => {},
            Err(failure) => {
                proof {
                    lemma_failure_persists(pairs, i + 1);
                }
                return Err(failure);
            },
        }
        i = i + 1;
    }
    proof {
        assert(pairs.take(i as int) == pairs);
    }
    Ok(map)
}

} // verus!
