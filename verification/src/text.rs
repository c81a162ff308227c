//! Strings as sequences of characters: comparison, trimming, splitting,
//! decimal digits.
use vstd::prelude::*;
use vstd::utf8;
use vstd::string::{StrSliceExecFns, StringExecFns};

verus! {

// ---------------------------------------------------------------------------
// Order
// ---------------------------------------------------------------------------

/// `a` stands before `b` in the lexicographic order of their code points.
#[verifier::opaque]
pub open spec fn text_lt(a: Seq<char>, b: Seq<char>) -> bool
    decreases a.len(),
{
    if b.len() == 0 {
        false
    } else if a.len() == 0 {
        true
    } else if a[0] == b[0] {
        text_lt(a.drop_first(), b.drop_first())
    } else {
        a[0] < b[0]
    }
}

/// Every entry stands strictly before every later one.
pub open spec fn ascending(ids: Seq<Seq<char>>) -> bool {
    forall|i: int, j: int| 0 <= i < j < ids.len() ==> text_lt(#[trigger] ids[i], #[trigger] ids[j])
}

/// No text stands before itself.
pub proof fn lemma_text_lt_irreflexive(a: Seq<char>)
    ensures
        !text_lt(a, a),
    decreases a.len(),
{
    reveal(text_lt);
    if a.len() > 0 {
        lemma_text_lt_irreflexive(a.drop_first());
    }
}

/// The order of texts is transitive.
pub proof fn lemma_text_lt_transitive(a: Seq<char>, b: Seq<char>, c: Seq<char>)
    requires
        text_lt(a, b),
        text_lt(b, c),
    ensures
        text_lt(a, c),
    decreases a.len(),
{
    reveal(text_lt);
    if a.len() > 0 && a[0] == b[0] && b[0] == c[0] {
        lemma_text_lt_transitive(a.drop_first(), b.drop_first(), c.drop_first());
    }
}

/// Of two texts one stands before the other, unless they are the same.
pub proof fn lemma_text_lt_total(a: Seq<char>, b: Seq<char>)
    ensures
        text_lt(a, b) || a == b || text_lt(b, a),
    decreases a.len(),
{
    reveal(text_lt);
    if a.len() == 0 && b.len() == 0 {
        assert(a =~= b);
    } else if a.len() > 0 && b.len() > 0 && a[0] == b[0] {
        lemma_text_lt_total(a.drop_first(), b.drop_first());
        if a.drop_first() == b.drop_first() {
            assert(a =~= seq![a[0]] + a.drop_first());
            assert(b =~= seq![b[0]] + b.drop_first());
        }
    }
}

/// `<` of `str`: the lexicographic order of the bytes, which is that of the
/// code points.
#[verifier::external_body]
pub(crate) fn str_lt(a: &str, b: &str) -> (r: bool)
    ensures
        r == text_lt(a@, b@),
{
    a < b
}

/// `==` of `str`: the same characters in the same order.
#[verifier::external_body]
pub(crate) fn str_eq(a: &str, b: &str) -> (r: bool)
    ensures
        r == (a@ == b@),
{
    a == b
}

// ---------------------------------------------------------------------------
// Sorted lists without repetition
// ---------------------------------------------------------------------------

/// `sorted` lists each text of `ids` once, in ascending order.
pub open spec fn lists_once(sorted: Seq<Seq<char>>, ids: Seq<Seq<char>>) -> bool {
    &&& ascending(sorted)
    &&& forall|id: Seq<char>| #[trigger] sorted.contains(id) <==> ids.contains(id)
}

/// The texts of `ids`, each once, in ascending order.
pub open spec fn sorted_ids(ids: Seq<Seq<char>>) -> Seq<Seq<char>> {
    choose|sorted: Seq<Seq<char>>| lists_once(sorted, ids)
}

/// Two ascending lists of the same texts are the same list.
pub proof fn lemma_ascending_same_set(a: Seq<Seq<char>>, b: Seq<Seq<char>>)
    requires
        ascending(a),
        ascending(b),
        forall|id: Seq<char>| #[trigger] a.contains(id) <==> b.contains(id),
    ensures
        a == b,
    decreases a.len(),
{
    if a.len() == 0 {
        if b.len() > 0 {
            assert(b.contains(b[0]));
            assert(a.contains(b[0]));
        }
        assert(a =~= b);
    } else {
        assert(a.contains(a[0]));
        assert(b.len() > 0);
        // The first entries agree: each is in the other list, hence not before its head.
        if a[0] != b[0] {
            let i = choose|i: int| 0 <= i < b.len() && b[i] == a[0];
            assert(b.contains(b[0]));
            assert(a.contains(b[0]));
            let j = choose|j: int| 0 <= j < a.len() && a[j] == b[0];
            assert(text_lt(b[0], b[i]));
            assert(text_lt(a[0], a[j]));
            lemma_text_lt_transitive(a[0], b[0], a[0]);
            lemma_text_lt_irreflexive(a[0]);
        }
        let ra = a.drop_first();
        let rb = b.drop_first();
        assert forall|id: Seq<char>| #[trigger] ra.contains(id) <==> rb.contains(id) by {
            if ra.contains(id) {
                let k = choose|k: int| 0 <= k < ra.len() && ra[k] == id;
                assert(a[k + 1] == id);
                assert(a.contains(id));
                let m = choose|m: int| 0 <= m < b.len() && b[m] == id;
                if m == 0 {
                    assert(text_lt(a[0], a[k + 1]));
                    lemma_text_lt_irreflexive(id);
                }
                assert(rb[m - 1] == id);
            }
            if rb.contains(id) {
                let k = choose|k: int| 0 <= k < rb.len() && rb[k] == id;
                assert(b[k + 1] == id);
                assert(b.contains(id));
                assert(a.contains(id));
                let m = choose|m: int| 0 <= m < a.len() && a[m] == id;
                if m == 0 {
                    assert(text_lt(b[0], b[k + 1]));
                    lemma_text_lt_irreflexive(id);
                }
                assert(ra[m - 1] == id);
            }
        }
        assert(ascending(ra)) by {
            assert forall|i: int, j: int| 0 <= i < j < ra.len() implies text_lt(#[trigger] ra[i], #[trigger] ra[j]) by {
                assert(text_lt(a[i + 1], a[j + 1]));
            }
        }
        assert(ascending(rb)) by {
            assert forall|i: int, j: int| 0 <= i < j < rb.len() implies text_lt(#[trigger] rb[i], #[trigger] rb[j]) by {
                assert(text_lt(b[i + 1], b[j + 1]));
            }
        }
        lemma_ascending_same_set(ra, rb);
        assert(a =~= seq![a[0]] + ra);
        assert(b =~= seq![b[0]] + rb);
    }
}

/// Whatever the order and the repetitions in two lists, they have the same
/// sorted list when they hold the same texts.
pub proof fn lemma_sorted_ids_unique(sorted: Seq<Seq<char>>, ids: Seq<Seq<char>>)
    requires
        lists_once(sorted, ids),
    ensures
        sorted_ids(ids) == sorted,
{
    assert(lists_once(sorted_ids(ids), ids));
    lemma_ascending_same_set(sorted_ids(ids), sorted);
}

/// An ascending list with one more text in its place.
proof fn lemma_inserted(list: Seq<Seq<char>>, id: Seq<char>) -> (r: Seq<Seq<char>>)
    requires
        ascending(list),
    ensures
        ascending(r),
        forall|t: Seq<char>| #[trigger] r.contains(t) <==> list.contains(t) || t == id,
    decreases list.len(),
{
    if list.len() == 0 {
        let r = seq![id];
        assert(r[0] == id);
        r
    } else {
        let last = list.last();
        let front = list.drop_last();
        assert(list =~= front.push(last));
        lemma_text_lt_total(last, id);
        if last == id {
            assert(list[list.len() - 1] == id);
            list
        } else if text_lt(last, id) {
            let r = list.push(id);
            assert forall|i: int, j: int| 0 <= i < j < r.len() implies text_lt(#[trigger] r[i], #[trigger] r[j]) by {
                if j < list.len() {
                    assert(text_lt(list[i], list[j]));
                } else if i < list.len() - 1 {
                    assert(text_lt(list[i], list[list.len() - 1]));
                    lemma_text_lt_transitive(list[i], last, id);
                }
            }
            assert forall|t: Seq<char>| #[trigger] r.contains(t) <==> list.contains(t) || t == id by {
                if list.contains(t) {
                    let n = choose|n: int| 0 <= n < list.len() && list[n] == t;
                    assert(r[n] == t);
                }
                assert(r[list.len() as int] == id);
            }
            r
        } else {
            assert forall|i: int, j: int| 0 <= i < j < front.len() implies text_lt(
                #[trigger] front[i],
                #[trigger] front[j],
            ) by {
                assert(text_lt(list[i], list[j]));
            }
            let inner = lemma_inserted(front, id);
            let r = inner.push(last);
            assert forall|i: int, j: int| 0 <= i < j < r.len() implies text_lt(#[trigger] r[i], #[trigger] r[j]) by {
                if j < inner.len() {
                    assert(text_lt(inner[i], inner[j]));
                } else {
                    assert(inner.contains(inner[i]));
                    if inner[i] != id {
                        assert(front.contains(inner[i]));
                        let n = choose|n: int| 0 <= n < front.len() && front[n] == inner[i];
                        assert(text_lt(list[n], list[list.len() - 1]));
                    }
                }
            }
            assert forall|t: Seq<char>| #[trigger] r.contains(t) <==> list.contains(t) || t == id by {
                if list.contains(t) {
                    let n = choose|n: int| 0 <= n < list.len() && list[n] == t;
                    if n < front.len() {
                        assert(front[n] == t);
                        assert(front.contains(t));
                    }
                }
                if inner.contains(t) {
                    let n = choose|n: int| 0 <= n < inner.len() && inner[n] == t;
                    assert(r[n] == t);
                    if t != id {
                        assert(front.contains(t));
                        let m = choose|m: int| 0 <= m < front.len() && front[m] == t;
                        assert(list[m] == t);
                    }
                }
                assert(inner.contains(id));
                assert(r[inner.len() as int] == last);
                assert(list[list.len() - 1] == last);
                if r.contains(t) {
                    let n = choose|n: int| 0 <= n < r.len() && r[n] == t;
                    if n < inner.len() {
                        assert(inner[n] == t);
                    }
                }
            }
            r
        }
    }
}

/// Every list has a sorted list of its texts.
pub proof fn lemma_sorted_ids(ids: Seq<Seq<char>>)
    ensures
        lists_once(sorted_ids(ids), ids),
    decreases ids.len(),
{
    if ids.len() == 0 {
        assert(lists_once(Seq::<Seq<char>>::empty(), ids));
    } else {
        let front = ids.drop_last();
        lemma_sorted_ids(front);
        let sorted = lemma_inserted(sorted_ids(front), ids.last());
        assert(ids =~= front.push(ids.last()));
        assert forall|t: Seq<char>| #[trigger] sorted.contains(t) <==> ids.contains(t) by {
            assert(sorted_ids(front).contains(t) <==> front.contains(t));
            if front.contains(t) {
                let n = choose|n: int| 0 <= n < front.len() && front[n] == t;
                assert(ids[n] == t);
            }
            assert(ids[ids.len() - 1] == ids.last());
            if ids.contains(t) && t != ids.last() {
                let n = choose|n: int| 0 <= n < ids.len() && ids[n] == t;
                assert(front[n] == t);
            }
        }
        assert(lists_once(sorted, ids));
    }
}

/// The place of `id` in an ascending list: all before it are less, all from it
/// on are not.
fn insertion_point(list: &Vec<String>, id: &str) -> (at: usize)
    requires
        ascending(list.deep_view()),
    ensures
        at <= list@.len(),
        forall|i: int| 0 <= i < at ==> text_lt(#[trigger] list.deep_view()[i], id@),
        forall|i: int| at <= i < list@.len() ==> !text_lt(#[trigger] list.deep_view()[i], id@),
{
    let mut at: usize = 0;
    while at < list.len() && str_lt(list[at].as_str(), id)
        invariant
            at <= list@.len(),
            forall|i: int| 0 <= i < at ==> text_lt(#[trigger] list.deep_view()[i], id@),
        decreases list@.len() - at,
    {
        at = at + 1;
    }
    proof {
        assert forall|i: int| at <= i < list@.len() implies !text_lt(#[trigger] list.deep_view()[i], id@) by {
            assert(list.deep_view()[at as int] == list@[at as int]@);
            if i > at && text_lt(list.deep_view()[i], id@) {
                assert(text_lt(list.deep_view()[at as int], list.deep_view()[i]));
                lemma_text_lt_transitive(list.deep_view()[at as int], list.deep_view()[i], id@);
            }
        }
    }
    at
}

/// Puts `id` into an ascending list unless it is there already.
fn insert_sorted(list: &mut Vec<String>, id: &String)
    requires
        ascending(old(list).deep_view()),
    ensures
        ascending(final(list).deep_view()),
        forall|t: Seq<char>| #[trigger] final(list).deep_view().contains(t) <==> old(list).deep_view().contains(t) || t == id@,
{
    let at = insertion_point(list, id.as_str());
    let ghost before = list.deep_view();
    if at < list.len() && str_eq(list[at].as_str(), id.as_str()) {
        proof {
            assert(before[at as int] == id@);
        }
        return;
    }
    list.insert(at, id.clone());
    proof {
        let after = list.deep_view();
        assert(after =~= before.insert(at as int, id@));
        assert forall|i: int| at <= i < before.len() implies text_lt(id@, #[trigger] before[i]) by {
            lemma_text_lt_total(id@, before[i]);
            if i > at && before[i] == id@ {
                assert(text_lt(before[at as int], before[i]));
            }
        }
        assert forall|i: int, j: int| 0 <= i < j < after.len() implies text_lt(#[trigger] after[i], #[trigger] after[j]) by {
            let x = if i < at { i } else { i - 1 };
            let y = if j < at { j } else { j - 1 };
            if i != at && j != at {
                assert(text_lt(before[x], before[y]));
            }
        }
        assert forall|t: Seq<char>| #[trigger] after.contains(t) <==> before.contains(t) || t == id@ by {
            if before.contains(t) {
                let k = choose|k: int| 0 <= k < before.len() && before[k] == t;
                assert(after[if k < at { k } else { k + 1 }] == t);
            }
            if t == id@ {
                assert(after[at as int] == t);
            }
            if after.contains(t) && t != id@ {
                let k = choose|k: int| 0 <= k < after.len() && after[k] == t;
                assert(before[if k < at { k } else { k - 1 }] == t);
            }
        }
    }
}

/// Sorts the texts and drops the repetitions.
pub fn sort_unique(ids: &Vec<String>) -> (sorted: Vec<String>)
    ensures
        sorted.deep_view() == sorted_ids(ids.deep_view()),
        lists_once(sorted.deep_view(), ids.deep_view()),
{
    let mut sorted: Vec<String> = Vec::new();
    let mut i: usize = 0;
    while i < ids.len()
        invariant
            i <= ids@.len(),
            ascending(sorted.deep_view()),
            forall|t: Seq<char>|
                #[trigger] sorted.deep_view().contains(t) <==> ids.deep_view().take(i as int).contains(t),
        decreases ids@.len() - i,
    {
        let ghost before = sorted.deep_view();
        insert_sorted(&mut sorted, &ids[i]);
        proof {
            let done = ids.deep_view().take(i as int);
            let more = ids.deep_view().take(i + 1);
            assert(more =~= done.push(ids@[i as int]@));
            assert forall|t: Seq<char>| #[trigger] sorted.deep_view().contains(t) <==> more.contains(t) by {
                if done.contains(t) {
                    let k = choose|k: int| 0 <= k < done.len() && done[k] == t;
                    assert(more[k] == t);
                }
                if t == ids@[i as int]@ {
                    assert(more[i as int] == t);
                }
                if more.contains(t) && t != ids@[i as int]@ {
                    let k = choose|k: int| 0 <= k < more.len() && more[k] == t;
                    assert(done[k] == t);
                }
            }
        }
        i = i + 1;
    }
    proof {
        assert(ids.deep_view().take(i as int) =~= ids.deep_view());
        lemma_sorted_ids_unique(sorted.deep_view(), ids.deep_view());
    }
    sorted
}

/// Does `id` occur in the list?
pub fn contains_text(ids: &Vec<String>, id: &str) -> (r: bool)
    ensures
        r == ids.deep_view().contains(id@),
{
    let mut i: usize = 0;
    while i < ids.len()
        invariant
            i <= ids@.len(),
            forall|k: int| 0 <= k < i ==> #[trigger] ids.deep_view()[k] != id@,
        decreases ids@.len() - i,
    {
        if str_eq(ids[i].as_str(), id) {
            proof {
                assert(ids.deep_view()[i as int] == id@);
            }
            return true;
        }
        i = i + 1;
    }
    false
}

// ---------------------------------------------------------------------------
// Trimming and splitting
// ---------------------------------------------------------------------------

/// The characters with the Unicode property White_Space.
pub open spec fn is_white_space(c: char) -> bool {
    let u = c as u32;
    ||| 0x9 <= u <= 0xd
    ||| u == 0x20
    ||| u == 0x85
    ||| u == 0xa0
    ||| u == 0x1680
    ||| 0x2000 <= u <= 0x200a
    ||| u == 0x2028
    ||| u == 0x2029
    ||| u == 0x202f
    ||| u == 0x205f
    ||| u == 0x3000
}

/// `s` without the white space at its start.
pub open spec fn trimmed_start(s: Seq<char>) -> Seq<char>
    decreases s.len(),
{
    if s.len() > 0 && is_white_space(s[0]) {
        trimmed_start(s.drop_first())
    } else {
        s
    }
}

/// `s` without the white space at its end.
pub open spec fn trimmed_end(s: Seq<char>) -> Seq<char>
    decreases s.len(),
{
    if s.len() > 0 && is_white_space(s.last()) {
        trimmed_end(s.drop_last())
    } else {
        s
    }
}

/// `s` without the white space at its start and its end.
pub open spec fn trimmed(s: Seq<char>) -> Seq<char> {
    trimmed_end(trimmed_start(s))
}

/// `str::trim`: leading and trailing characters with the Unicode property
/// White_Space are left out.
#[verifier::external_body]
pub(crate) fn trim(s: &str) -> (r: &str)
    ensures
        r@ == trimmed(s@),
{
    s.trim()
}

/// `s` without the slashes at its end.
pub open spec fn without_trailing_slashes(s: Seq<char>) -> Seq<char>
    decreases s.len(),
{
    if s.len() > 0 && s.last() == '/' {
        without_trailing_slashes(s.drop_last())
    } else {
        s
    }
}

/// Drops the slashes at the end.
pub fn trim_trailing_slashes(s: &str) -> (r: &str)
    ensures
        r@ == without_trailing_slashes(s@),
{
    let mut end: usize = s.unicode_len();
    proof {
        assert(s@.take(s@.len() as int) =~= s@);
    }
    while end > 0 && s.get_char(end - 1) == '/'
        invariant
            end <= s@.len(),
            without_trailing_slashes(s@) == without_trailing_slashes(s@.take(end as int)),
        decreases end,
    {
        proof {
            assert(s@.take(end as int).drop_last() =~= s@.take(end - 1));
        }
        end = end - 1;
    }
    let r = s.substring_char(0, end);
    proof {
        assert(r@ =~= s@.take(end as int));
    }
    r
}

/// The place of the first `c` in `s`; the length of `s` where there is none.
pub open spec fn first_index_of(s: Seq<char>, c: char) -> int
    decreases s.len(),
{
    if s.len() == 0 || s[0] == c {
        0
    } else {
        1 + first_index_of(s.drop_first(), c)
    }
}

/// Up to the first `c` nothing is `c`, and at that place, if it is inside, is `c`.
pub proof fn lemma_first_index_of(s: Seq<char>, c: char)
    ensures
        0 <= first_index_of(s, c) <= s.len(),
        forall|i: int| 0 <= i < first_index_of(s, c) ==> s[i] != c,
        first_index_of(s, c) < s.len() ==> s[first_index_of(s, c)] == c,
    decreases s.len(),
{
    if s.len() > 0 && s[0] != c {
        lemma_first_index_of(s.drop_first(), c);
        assert forall|i: int| 0 <= i < first_index_of(s, c) implies s[i] != c by {
            if i > 0 {
                assert(s.drop_first()[i - 1] != c);
            }
        }
    }
}

/// The place of the first `c`, if there is one.
pub fn find_char(s: &str, c: char) -> (r: Option<usize>)
    ensures
        r is Some <==> s@.contains(c),
        r matches Some(i) ==> i == first_index_of(s@, c) && i < s@.len(),
{
    let n: usize = s.unicode_len();
    let mut i: usize = 0;
    proof {
        lemma_first_index_of(s@, c);
    }
    while i < n
        invariant
            i <= n,
            n == s@.len(),
            forall|k: int| 0 <= k < i ==> s@[k] != c,
        decreases n - i,
    {
        if s.get_char(i) == c {
            proof {
                lemma_first_index_of(s@, c);
            }
            return Some(i);
        }
        i = i + 1;
    }
    None
}

// ---------------------------------------------------------------------------
// Building
// ---------------------------------------------------------------------------

/// `String::push`: the character comes behind what the string held.
pub assume_specification[ String::push ](s: &mut String, c: char)
    ensures
        final(s)@ == old(s)@.push(c),
;

/// `a` followed by `b`.
pub fn cat(a: &str, b: &str) -> (r: String)
    ensures
        r@ == a@ + b@,
{
    a.to_string().concat(b)
}

/// The decimal digits of `n`, without leading zeros.
pub open spec fn decimal(n: nat) -> Seq<char>
    decreases n,
{
    if n < 10 {
        seq![digit(n)]
    } else {
        decimal(n / 10).push(digit(n % 10))
    }
}

/// The character of a digit.
pub open spec fn digit(d: nat) -> char {
    (('0' as u32) + d) as char
}

/// The digit `d` as a character.
fn digit_char(d: u64) -> (c: char)
    requires
        d < 10,
    ensures
        c == digit(d as nat),
{
    let byte: u8 = 48 + d as u8;
    byte as char
}

/// The decimal digits of `n`.
pub fn decimal_text(n: u64) -> (r: String)
    ensures
        r@ == decimal(n as nat),
    decreases n,
{
    if n < 10 {
        let mut r = String::new();
        r.push(digit_char(n));
        r
    } else {
        let mut r = decimal_text(n / 10);
        r.push(digit_char(n % 10));
        r
    }
}

/// The parts one after another, with `separator` between two.
pub open spec fn joined(parts: Seq<Seq<char>>, separator: Seq<char>) -> Seq<char>
    decreases parts.len(),
{
    if parts.len() == 0 {
        Seq::empty()
    } else if parts.len() == 1 {
        parts[0]
    } else {
        joined(parts.drop_last(), separator) + separator + parts.last()
    }
}

/// Joins the parts with `separator` between two.
pub fn join(parts: &Vec<String>, separator: &str) -> (r: String)
    ensures
        r@ == joined(parts.deep_view(), separator@),
{
    let mut r = String::new();
    let mut i: usize = 0;
    while i < parts.len()
        invariant
            i <= parts@.len(),
            r@ == joined(parts.deep_view().take(i as int), separator@),
        decreases parts@.len() - i,
    {
        if i > 0 {
            r.append(separator);
        }
        r.append(parts[i].as_str());
        proof {
            let more = parts.deep_view().take(i + 1);
            assert(more.drop_last() =~= parts.deep_view().take(i as int));
            assert(more.last() == parts@[i as int]@);
            if i == 0 {
                assert(more =~= seq![parts@[0]@]);
            }
        }
        i = i + 1;
    }
    proof {
        assert(parts.deep_view().take(i as int) =~= parts.deep_view());
    }
    r
}

// ---------------------------------------------------------------------------
// UTF-8
// ---------------------------------------------------------------------------

/// The length of a text in UTF-8.
pub open spec fn utf8_len(s: Seq<char>) -> nat {
    utf8::encode_utf8(s).len()
}

/// Does a character start, or the text end, at the byte `at`?
pub open spec fn can_cut(s: Seq<char>, at: int) -> bool {
    utf8::is_char_boundary(utf8::encode_utf8(s), at)
}

/// The characters before the byte `at`.
pub open spec fn cut(s: Seq<char>, at: int) -> Seq<char> {
    utf8::decode_utf8(utf8::encode_utf8(s).subrange(0, at))
}

/// Is a text longer than `limit` bytes?
pub fn is_longer_than(s: &str, limit: usize) -> (r: bool)
    ensures
        r == (utf8_len(s@) > limit),
{
    s.as_bytes().len() > limit
}

/// The characters before the byte `at`.
pub fn cut_at(s: &str, at: usize) -> (r: &str)
    requires
        can_cut(s@, at as int),
    ensures
        r@ == cut(s@, at as int),
{
    let (front, _rest) = s.split_at(at);
    proof {
        utf8::encode_utf8_decode_utf8(front@);
    }
    front
}

/// Does a character start, or the text end, at the byte `at`?
pub fn can_cut_at(s: &str, at: usize) -> (r: bool)
    ensures
        r == can_cut(s@, at as int),
{
    s.is_char_boundary(at)
}

/// What is cut off a text stands at its end: what stays is how it begins.
pub proof fn lemma_cut_is_prefix(s: Seq<char>, at: int)
    requires
        can_cut(s, at),
        0 <= at <= utf8_len(s),
    ensures
        cut(s, at).is_prefix_of(s),
        utf8_len(cut(s, at)) == at,
{
    let bytes = utf8::encode_utf8(s);
    utf8::encode_utf8_valid_utf8(s);
    utf8::encode_utf8_decode_utf8(s);
    utf8::decode_utf8_split(bytes, at);
    utf8::valid_utf8_split(bytes, at);
    utf8::decode_utf8_encode_utf8(bytes.subrange(0, at));
    assert(s =~= cut(s, at) + utf8::decode_utf8(bytes.subrange(at, bytes.len() as int)));
}

/// What is left without the slashes at the end ends in no slash, and what was
/// taken away is slashes only.
pub proof fn law_only_slashes_are_taken_off(s: Seq<char>)
    ensures
        ({
            let left = without_trailing_slashes(s);
            &&& left.is_prefix_of(s)
            &&& left.len() > 0 ==> left.last() != '/'
            &&& forall|i: int| left.len() <= i < s.len() ==> (#[trigger] s[i]) == '/'
        }),
    decreases s.len(),
{
    if s.len() > 0 && s.last() == '/' {
        let front = s.drop_last();
        law_only_slashes_are_taken_off(front);
        assert forall|i: int| without_trailing_slashes(s).len() <= i < s.len() implies (#[trigger] s[i]) == '/' by {
            if i < front.len() {
                assert(front[i] == s[i]);
            }
        }
        assert(without_trailing_slashes(s).is_prefix_of(s)) by {
            assert(front =~= s.subrange(0, front.len() as int));
        }
    }
}

/// Which of two texts stands first is told by the first character in which they
/// differ, the smaller one first; a text stands before every longer one that it
/// begins.
pub proof fn law_first_difference_decides(a: Seq<char>, b: Seq<char>, k: int)
    requires
        0 <= k <= a.len(),
        k < b.len(),
        forall|i: int| 0 <= i < k ==> a[i] == b[i],
    ensures
        k < a.len() && a[k] < b[k] ==> text_lt(a, b) && !text_lt(b, a),
        k == a.len() ==> text_lt(a, b) && !text_lt(b, a),
    decreases k,
{
    reveal_with_fuel(text_lt, 2);
    if k > 0 {
        assert(a[0] == b[0]);
        assert forall|i: int| 0 <= i < k - 1 implies a.drop_first()[i] == b.drop_first()[i] by {
            assert(a[i + 1] == b[i + 1]);
        }
        law_first_difference_decides(a.drop_first(), b.drop_first(), k - 1);
    }
}

/// The number that decimal digits stand for.
pub open spec fn number_of(digits: Seq<char>) -> int
    decreases digits.len(),
{
    if digits.len() == 0 {
        0
    } else {
        10 * number_of(digits.drop_last()) + (digits.last() as int - '0' as int)
    }
}

/// The decimal digits of a number stand for that number, and do not begin with a
/// zero unless the number is zero.
pub proof fn law_decimal_digits_stand_for_the_number(n: nat)
    ensures
        number_of(decimal(n)) == n,
        decimal(n).len() > 0,
        n > 0 ==> decimal(n)[0] != '0',
        forall|i: int| 0 <= i < decimal(n).len() ==> '0' <= #[trigger] decimal(n)[i] <= '9',
    decreases n,
{
    reveal_with_fuel(number_of, 2);
    if n >= 10 {
        law_decimal_digits_stand_for_the_number(n / 10);
        assert(decimal(n).drop_last() =~= decimal(n / 10));
        assert(decimal(n)[0] == decimal(n / 10)[0]);
    } else {
        assert(decimal(n).drop_last() =~= Seq::empty());
    }
}

} // verus!
