//! The shareable link's token: the paste id and the transport-encoded key,
//! joined by a separator the id alphabet never uses, so the key rides along
//! with the link without ever entering the request path keyed by the id.

use vstd::prelude::*;
use vstd::string::StrSliceExecFns;
use crate::ids::is_id_char;

verus! {

/// The token carried in a sharing link: id, separator, encoded key.
pub open spec fn link_of(id: Seq<char>, key_text: Seq<char>) -> Seq<char> {
    id + seq!['-'] + key_text
}

/// `k` is the position of the first separator in `s`.
pub open spec fn is_first_sep(s: Seq<char>, k: int) -> bool {
    &&& 0 <= k < s.len()
    &&& s[k] == '-'
    &&& forall|j: int| 0 <= j < k ==> s[j] != '-'
}

/// What splitting a token yields: the part before the first separator and
/// the part after it, or nothing when no separator occurs. Splitting at the
/// first occurrence lets the key part itself contain separators, as the
/// URL-safe base64 alphabet does.
pub open spec fn split_link_spec(s: Seq<char>) -> Option<(Seq<char>, Seq<char>)> {
    if exists|k: int| is_first_sep(s, k) {
        let k = choose|k: int| is_first_sep(s, k);
        Some((s.take(k), s.skip(k + 1)))
    } else {
        None
    }
}

/// Join an id and an encoded key into the token a sharing link carries.
pub fn join_link(id: &String, key_text: &String) -> (r: String)
    ensures
        r@ == link_of(id@, key_text@),
{
    let mut out = id.clone();
    out.append("-");
    out.append(key_text.as_str());
    proof {
        reveal_strlit("-");
        assert(out@ =~= link_of(id@, key_text@));
    }
    out
}

/// Split a token at its first separator into the id part and the key part;
/// nothing when the token holds no separator at all.
pub fn split_link(s: &str) -> (r: Option<(String, String)>)
    ensures
        r matches Some(p) ==> split_link_spec(s@) == Some((p.0@, p.1@)),
        r is None ==> split_link_spec(s@) is None,
{
    let n = s.unicode_len();
    let mut i: usize = 0;
    while i < n
        invariant
            n == s@.len(),
            i <= n,
            forall|j: int| 0 <= j < i ==> s@[j] != '-',
        decreases n - i,
    {
        let c = s.get_char(i);
        if c == '-' {
            proof {
                assert(is_first_sep(s@, i as int));
                let k = choose|k: int| is_first_sep(s@, k);
                if k < i as int {
                    assert(s@[k] != '-');
                } else if k > i as int {
                    assert(s@[i as int] != '-');
                }
                assert(k == i as int);
            }
            let id_part = s.substring_char(0, i).to_owned();
            let key_part = s.substring_char(i + 1, n).to_owned();
            proof {
                assert(id_part@ =~= s@.take(i as int));
                assert(key_part@ =~= s@.skip(i as int + 1));
            }
            return Some((id_part, key_part));
        }
        i = i + 1;
    }
    None
}

/// Splitting a joined token recovers the id and the key text exactly,
/// for every id drawn from the identifier alphabet — which contains no
/// separator — and every key text.
pub proof fn lemma_link_round_trip(id: Seq<char>, key_text: Seq<char>)
    requires
        forall|i: int| 0 <= i < id.len() ==> is_id_char(#[trigger] id[i]),
    ensures
        split_link_spec(link_of(id, key_text)) == Some((id, key_text)),
{
    let s = link_of(id, key_text);
    assert(s[id.len() as int] == '-');
    assert forall|j: int| 0 <= j < id.len() implies s[j] != '-' by {
        assert(is_id_char(id[j]));
    }
    assert(is_first_sep(s, id.len() as int));
    let k = choose|k: int| is_first_sep(s, k);
    if k < id.len() {
        assert(s[k] != '-');
    } else if k > id.len() {
        assert(s[id.len() as int] != '-');
    }
    assert(k == id.len() as int);
    assert(s.take(k) =~= id);
    assert(s.skip(k + 1) =~= key_text);
}

} // verus!
