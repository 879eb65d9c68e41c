use vstd::prelude::*;

verus! {

/// The decimal spelling of one digit.
pub open spec fn digit_char(d: nat) -> char {
    if d == 0 { '0' }
    else if d == 1 { '1' }
    else if d == 2 { '2' }
    else if d == 3 { '3' }
    else if d == 4 { '4' }
    else if d == 5 { '5' }
    else if d == 6 { '6' }
    else if d == 7 { '7' }
    else if d == 8 { '8' }
    else { '9' }
}

/// The decimal spelling of a natural number, without leading zeros.
pub open spec fn decimal(n: nat) -> Seq<char>
    decreases n,
{
    if n < 10 {
        seq![digit_char(n)]
    } else {
        decimal(n / 10).push(digit_char(n % 10))
    }
}

/// The map that inserting the pairs in order produces: a later pair wins over
/// an earlier one with the same key.
pub open spec fn map_of(p: Seq<(Seq<char>, Seq<char>)>) -> Map<Seq<char>, Seq<char>>
    decreases p.len(),
{
    if p.len() == 0 {
        Map::empty()
    } else {
        map_of(p.drop_last()).insert(p.last().0, p.last().1)
    }
}

/// The field at position `i` of a row, or the empty string past its end.
pub open spec fn field_or_empty(r: Seq<Seq<char>>, i: int) -> Seq<char> {
    if 0 <= i < r.len() { r[i] } else { Seq::empty() }
}

/// The pairs of a named context: each header with the field below it.
pub open spec fn named_pairs(h: Seq<Seq<char>>, r: Seq<Seq<char>>) -> Seq<(Seq<char>, Seq<char>)> {
    Seq::new(h.len(), |i: int| (h[i], field_or_empty(r, i)))
}

/// The pairs of an indexed context: each position, spelled in decimal, with its field.
pub open spec fn indexed_pairs(r: Seq<Seq<char>>) -> Seq<(Seq<char>, Seq<char>)> {
    Seq::new(r.len(), |i: int| (decimal(i as nat), r[i]))
}

pub open spec fn strings_view(v: Seq<String>) -> Seq<Seq<char>> {
    v.map_values(|s: String| s@)
}

pub open spec fn pairs_view(v: Seq<(String, String)>) -> Seq<(Seq<char>, Seq<char>)> {
    v.map_values(|p: (String, String)| (p.0@, p.1@))
}

/// The variables one row exposes to a template, as name and value pairs in
/// insertion order.
#[derive(Debug)]
pub struct RowContext {
    entries: Vec<(String, String)>,
}

impl RowContext {
    /// The pairs in the order they were inserted.
    pub closed spec fn pairs(&self) -> Seq<(Seq<char>, Seq<char>)> {
        pairs_view(self.entries@)
    }

    /// The value bound to `key`: that of the last pair with this key.
    pub fn get(&self, key: &str) -> (r: Option<&String>)
        ensures
            self@.contains_key(key@) <==> r is Some,
            r matches Some(v) ==> v@ == self@[key@],
    {
        let k = String::from_str(key);
        let mut i: usize = self.entries.len();
        while i > 0
            invariant
                i <= self.entries.len(),
                k@ == key@,
                forall|m: int| i <= m < self.entries@.len() ==> self.pairs()[m].0 != key@,
            decreases i,
        {
            i = i - 1;
            if self.entries[i].0 == k {
                proof {
                    lemma_map_of_last(self.pairs(), key@, i as int);
                }
                return Some(&self.entries[i].1);
            }
        }
        proof {
            lemma_map_of_last(self.pairs(), key@, 0);
        }
        None
    }

    /// The pairs that were inserted, in order.
    pub fn entries(&self) -> (r: &Vec<(String, String)>)
        ensures
            pairs_view(r@) == self.pairs(),
    {
        &self.entries
    }
}

/// Inserting the pairs in order leaves a key bound to its last pair, and
/// leaves out a key that no pair has.
pub proof fn lemma_map_of_last(p: Seq<(Seq<char>, Seq<char>)>, k: Seq<char>, j: int)
    ensures
        (forall|i: int| 0 <= i < p.len() ==> p[i].0 != k) ==> !map_of(p).contains_key(k),
        (0 <= j < p.len() && p[j].0 == k && forall|i: int| j < i < p.len() ==> p[i].0 != k)
            ==> map_of(p).contains_key(k) && map_of(p)[k] == p[j].1,
    decreases p.len(),
{
    if p.len() > 0 {
        let q = p.drop_last();
        lemma_map_of_last(q, k, j);
        if forall|i: int| 0 <= i < p.len() ==> p[i].0 != k {
            assert(forall|i: int| 0 <= i < q.len() ==> q[i].0 == p[i].0);
            assert(p[p.len() - 1].0 != k);
        }
        if 0 <= j < p.len() - 1 && p[j].0 == k && forall|i: int| j < i < p.len() ==> p[i].0 != k {
            assert(forall|i: int| j < i < q.len() ==> q[i].0 == p[i].0);
            assert(q[j] == p[j]);
            assert(p[p.len() - 1].0 != k);
        }
    }
}

impl View for RowContext {
    type V = Map<Seq<char>, Seq<char>>;

    open spec fn view(&self) -> Map<Seq<char>, Seq<char>> {
        map_of(self.pairs())
    }
}

fn digit_str(d: usize) -> (r: &'static str)
    requires
        d < 10,
    ensures
        r@ == seq![digit_char(d as nat)],
{
    proof {
        reveal_strlit("0");
        reveal_strlit("1");
        reveal_strlit("2");
        reveal_strlit("3");
        reveal_strlit("4");
        reveal_strlit("5");
        reveal_strlit("6");
        reveal_strlit("7");
        reveal_strlit("8");
        reveal_strlit("9");
    }
    if d == 0 { "0" }
    else if d == 1 { "1" }
    else if d == 2 { "2" }
    else if d == 3 { "3" }
    else if d == 4 { "4" }
    else if d == 5 { "5" }
    else if d == 6 { "6" }
    else if d == 7 { "7" }
    else if d == 8 { "8" }
    else { "9" }
}

/// Appends the decimal spelling of `n` to `out`.
pub fn push_decimal(n: usize, out: &mut String)
    ensures
        final(out)@ == old(out)@ + decimal(n as nat),
    decreases n,
{
    if n >= 10 {
        push_decimal(n / 10, out);
    }
    out.append(digit_str(n % 10));
    proof {
        if n < 10 {
            assert(old(out)@ + decimal(n as nat) =~= old(out)@ + seq![digit_char(n as nat)]);
        }
    }
    assert(final(out)@ =~= old(out)@ + decimal(n as nat));
}

/// The key under which the field at position `i` is bound in indexed mode.
pub fn index_key(i: usize) -> (r: String)
    ensures
        r@ == decimal(i as nat),
{
    let mut s = String::new();
    push_decimal(i, &mut s);
    assert(s@ =~= decimal(i as nat));
    s
}

/// Binds each header to the field at its position; a header past the end of
/// the row gets the empty string and fields past the last header are ignored.
pub fn create_named_context(headers: &Vec<String>, record: &Vec<String>) -> (r: RowContext)
    ensures
        r.pairs() == named_pairs(strings_view(headers@), strings_view(record@)),
        r@ == map_of(named_pairs(strings_view(headers@), strings_view(record@))),
{
    let ghost h = strings_view(headers@);
    let ghost f = strings_view(record@);
    let mut entries: Vec<(String, String)> = Vec::new();
    let mut i: usize = 0;
    while i < headers.len()
        invariant
            i <= headers.len(),
            h == strings_view(headers@),
            f == strings_view(record@),
            pairs_view(entries@) =~= named_pairs(h, f).take(i as int),
        decreases headers.len() - i,
    {
        let value = if i < record.len() {
            record[i].clone()
        } else {
            String::new()
        };
        let key = headers[i].clone();
        assert(value@ == field_or_empty(f, i as int));
        let ghost before = entries@;
        entries.push((key, value));
        assert(entries@ == before.push((key, value)));
        assert(pairs_view(entries@) =~= pairs_view(before).push((key@, value@)));
        assert(pairs_view(entries@) =~= named_pairs(h, f).take(i + 1));
        i = i + 1;
    }
    assert(named_pairs(h, f).take(i as int) =~= named_pairs(h, f));
    RowContext { entries }
}

/// Binds the field at each position to that position spelled in decimal.
pub fn create_indexed_context(record: &Vec<String>) -> (r: RowContext)
    ensures
        r.pairs() == indexed_pairs(strings_view(record@)),
        r@ == map_of(indexed_pairs(strings_view(record@))),
{
    let ghost f = strings_view(record@);
    let mut entries: Vec<(String, String)> = Vec::new();
    let mut i: usize = 0;
    while i < record.len()
        invariant
            i <= record.len(),
            f == strings_view(record@),
            pairs_view(entries@) =~= indexed_pairs(f).take(i as int),
        decreases record.len() - i,
    {
        let key = index_key(i);
        let value = record[i].clone();
        let ghost before = entries@;
        entries.push((key, value));
        assert(pairs_view(entries@) =~= pairs_view(before).push((key@, value@)));
        assert(pairs_view(entries@) =~= indexed_pairs(f).take(i + 1));
        i = i + 1;
    }
    assert(indexed_pairs(f).take(i as int) =~= indexed_pairs(f));
    RowContext { entries }
}

/// No key occurs twice among the pairs.
pub open spec fn keys_distinct(p: Seq<(Seq<char>, Seq<char>)>) -> bool {
    forall|i: int, j: int| 0 <= i < j < p.len() ==> p[i].0 != p[j].0
}

/// With distinct keys, inserting the pairs in order gives one key per pair,
/// each bound to its own value.
pub proof fn lemma_map_of_distinct(p: Seq<(Seq<char>, Seq<char>)>)
    requires
        keys_distinct(p),
    ensures
        map_of(p).dom().finite(),
        map_of(p).dom().len() == p.len(),
        forall|k: Seq<char>| #[trigger] map_of(p).contains_key(k) <==> exists|i: int| 0 <= i < p.len() && p[i].0 == k,
        forall|i: int| 0 <= i < p.len() ==> #[trigger] map_of(p)[p[i].0] == p[i].1,
    decreases p.len(),
{
    if p.len() > 0 {
        let q = p.drop_last();
        assert forall|i: int, j: int| 0 <= i < j < q.len() implies q[i].0 != q[j].0 by {
            assert(q[i] == p[i] && q[j] == p[j]);
        }
        lemma_map_of_distinct(q);
        let last = p.last();
        assert(!map_of(q).contains_key(last.0)) by {
            if map_of(q).contains_key(last.0) {
                let i = choose|i: int| 0 <= i < q.len() && q[i].0 == last.0;
                assert(p[i].0 == p[p.len() - 1].0);
            }
        }
        assert forall|k: Seq<char>| #[trigger] map_of(p).contains_key(k) <==> exists|i: int| 0 <= i < p.len() && p[i].0 == k by {
            if map_of(p).contains_key(k) && k != last.0 {
                let i = choose|i: int| 0 <= i < q.len() && q[i].0 == k;
                assert(p[i].0 == k);
            }
            if exists|i: int| 0 <= i < p.len() && p[i].0 == k {
                let i = choose|i: int| 0 <= i < p.len() && p[i].0 == k;
                if i < q.len() {
                    assert(q[i].0 == k);
                }
            }
        }
        assert forall|i: int| 0 <= i < p.len() implies #[trigger] map_of(p)[p[i].0] == p[i].1 by {
            if i < q.len() {
                assert(q[i] == p[i]);
                assert(p[i].0 != last.0);
            }
        }
    }
}

/// Spelled in decimal, distinct numbers stay distinct.
pub proof fn lemma_decimal_injective(a: nat, b: nat)
    requires
        decimal(a) == decimal(b),
    ensures
        a == b,
    decreases a,
{
    lemma_decimal_len(a);
    lemma_decimal_len(b);
    if a < 10 && b < 10 {
        assert(decimal(a)[0] == digit_char(a));
        assert(decimal(b)[0] == digit_char(b));
        lemma_digit_injective(a, b);
    } else if a >= 10 && b >= 10 {
        let da = decimal(a / 10);
        let db = decimal(b / 10);
        assert(decimal(a).drop_last() =~= da);
        assert(decimal(b).drop_last() =~= db);
        assert(decimal(a).last() == digit_char(a % 10));
        assert(decimal(b).last() == digit_char(b % 10));
        lemma_digit_injective(a % 10, b % 10);
        lemma_decimal_injective(a / 10, b / 10);
        assert(a == (a / 10) * 10 + a % 10);
        assert(b == (b / 10) * 10 + b % 10);
    } else {
        if a < 10 {
            lemma_decimal_len(b / 10);
        } else {
            lemma_decimal_len(a / 10);
        }
    }
}

/// Distinct digits have distinct characters.
pub proof fn lemma_digit_injective(a: nat, b: nat)
    requires
        a < 10,
        b < 10,
        digit_char(a) == digit_char(b),
    ensures
        a == b,
{
}

/// A spelling is one digit exactly for numbers below ten.
pub proof fn lemma_decimal_len(n: nat)
    ensures
        decimal(n).len() >= 1,
        decimal(n).len() == 1 <==> n < 10,
    decreases n,
{
    if n >= 10 {
        lemma_decimal_len(n / 10);
    }
}

/// A named context over distinct headers has one key per header, each bound
/// to the field at that header's position, or to the empty string where the
/// row is shorter.
pub proof fn lemma_named_context_keys(h: Seq<Seq<char>>, r: Seq<Seq<char>>)
    requires
        forall|i: int, j: int| 0 <= i < j < h.len() ==> h[i] != h[j],
    ensures
        map_of(named_pairs(h, r)).dom().len() == h.len(),
        forall|k: Seq<char>| map_of(named_pairs(h, r)).contains_key(k) <==> h.contains(k),
        forall|i: int| 0 <= i < h.len() ==> map_of(named_pairs(h, r))[h[i]] == field_or_empty(r, i),
{
    let p = named_pairs(h, r);
    lemma_map_of_distinct(p);
    assert forall|k: Seq<char>| map_of(p).contains_key(k) <==> h.contains(k) by {
        if h.contains(k) {
            let i = choose|i: int| 0 <= i < h.len() && h[i] == k;
            assert(p[i].0 == k);
        }
    }
    assert forall|i: int| 0 <= i < h.len() implies map_of(p)[h[i]] == field_or_empty(r, i) by {
        assert(p[i].0 == h[i]);
    }
}

/// An indexed context has the keys "0" up to the row's length less one, each
/// bound to the field at that position.
pub proof fn lemma_indexed_context_keys(r: Seq<Seq<char>>)
    ensures
        map_of(indexed_pairs(r)).dom().len() == r.len(),
        forall|k: Seq<char>| map_of(indexed_pairs(r)).contains_key(k) <==> exists|i: int| 0 <= i < r.len() && k == #[trigger] decimal(i as nat),
        forall|i: int| 0 <= i < r.len() ==> map_of(indexed_pairs(r))[decimal(i as nat)] == r[i],
{
    let p = indexed_pairs(r);
    assert forall|i: int, j: int| 0 <= i < j < p.len() implies p[i].0 != p[j].0 by {
        if p[i].0 == p[j].0 {
            lemma_decimal_injective(i as nat, j as nat);
        }
    }
    lemma_map_of_distinct(p);
    assert forall|i: int| 0 <= i < r.len() implies map_of(p)[decimal(i as nat)] == r[i] by {
        assert(p[i].0 == decimal(i as nat));
    }
    assert forall|k: Seq<char>| map_of(p).contains_key(k) <==> exists|i: int| 0 <= i < r.len() && k == #[trigger] decimal(i as nat) by {
        if exists|i: int| 0 <= i < r.len() && k == #[trigger] decimal(i as nat) {
            let i = choose|i: int| 0 <= i < r.len() && k == #[trigger] decimal(i as nat);
            assert(p[i].0 == k);
        }
    }
}

} // verus!
