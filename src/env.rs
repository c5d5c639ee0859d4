//! Environment variables of a workload: a map from names to values, edited
//! as `KEY=VALUE` lines of text.

use vstd::prelude::*;
use crate::text::{
    append_chars, chars_of, find_char, has_char, index_of, is_space, join_with, line_ranges,
    lines_of, pieces, ranges_within, split_on, string_from, strip_cr, trim, trim_end, trim_range,
    trim_start,
};

verus! {

/// The map that a list of pairs makes when they are inserted in order: a
/// later pair replaces an earlier one with the same key.
pub open spec fn pairs_map(ps: Seq<(Seq<char>, Seq<char>)>) -> Map<Seq<char>, Seq<char>>
    decreases ps.len(),
{
    if ps.len() == 0 {
        Map::empty()
    } else {
        pairs_map(ps.drop_last()).insert(ps.last().0, ps.last().1)
    }
}

pub open spec fn keys_unique(ps: Seq<(Seq<char>, Seq<char>)>) -> bool {
    forall|i: int, j: int| 0 <= i < j < ps.len() ==> (#[trigger] ps[i]).0 != (#[trigger] ps[j]).0
}

/// What one line of text contributes: the trimmed line split at its first
/// `=`, both sides trimmed; nothing when there is no `=` or the key is blank.
pub open spec fn env_entry(line: Seq<char>) -> Option<(Seq<char>, Seq<char>)> {
    let t = trim(line);
    let p = index_of(t, '=');
    if p < t.len() && trim(t.take(p)).len() > 0 {
        Some((trim(t.take(p)), trim(t.skip(p + 1))))
    } else {
        None
    }
}

/// The map that a sequence of lines describes, later lines winning.
pub open spec fn lines_map(ls: Seq<Seq<char>>) -> Map<Seq<char>, Seq<char>>
    decreases ls.len(),
{
    if ls.len() == 0 {
        Map::empty()
    } else {
        match env_entry(ls.last()) {
            Some(e) => lines_map(ls.drop_last()).insert(e.0, e.1),
            None => lines_map(ls.drop_last()),
        }
    }
}

/// The map that an edited text describes.
pub open spec fn parse_env(text: Seq<char>) -> Map<Seq<char>, Seq<char>> {
    lines_map(lines_of(text))
}

pub open spec fn env_line(p: (Seq<char>, Seq<char>)) -> Seq<char> {
    p.0 + seq!['='] + p.1
}

/// The pairs written as `KEY=VALUE` lines joined by newlines.
pub open spec fn env_text(ps: Seq<(Seq<char>, Seq<char>)>) -> Seq<char> {
    join_with(ps.map_values(|p: (Seq<char>, Seq<char>)| env_line(p)), seq!['\n'])
}

/// A pair that survives being written out and read back: a non-blank key
/// without `=` or newline and a value without newline, neither with white
/// space at its ends.
pub open spec fn writable_pair(p: (Seq<char>, Seq<char>)) -> bool {
    &&& p.0.len() > 0
    &&& !has_char(p.0, '=')
    &&& !has_char(p.0, '\n')
    &&& !has_char(p.1, '\n')
    &&& trim(p.0) == p.0
    &&& trim(p.1) == p.1
}

/// A set of environment variables; keys are unique and the order in which
/// they were first set is kept.
#[derive(Clone)]
pub struct EnvVars {
    entries: Vec<(String, String)>,
}

impl EnvVars {
    pub closed spec fn pairs(&self) -> Seq<(Seq<char>, Seq<char>)> {
        self.entries@.map_values(|e: (String, String)| (e.0@, e.1@))
    }

    pub open spec fn wf(&self) -> bool {
        keys_unique(self.pairs())
    }

    /// No variables.
    pub fn new() -> (r: EnvVars)
        ensures
            r.wf(),
            r@ == Map::<Seq<char>, Seq<char>>::empty(),
            r.pairs().len() == 0,
    {
        let r = EnvVars { entries: Vec::new() };
        assert(r.pairs() =~= Seq::<(Seq<char>, Seq<char>)>::empty());
        r
    }

    /// Sets `key` to `value`, in place when the key is already there.
    pub fn insert(&mut self, key: String, value: String)
        requires
            old(self).wf(),
        ensures
            final(self).wf(),
            final(self)@ == old(self)@.insert(key@, value@),
    {
        let n = self.entries.len();
        let mut i: usize = 0;
        while i < n
            invariant
                n == self.entries.len(),
                i <= n,
                self.pairs() == old(self).pairs(),
                self.wf(),
                forall|t: int| 0 <= t < i ==> self.pairs()[t].0 != key@,
            decreases n - i,
        {
            if self.entries[i].0 == key {
                let ghost before = self.pairs();
                self.entries[i] = (key, value);
                assert(self.pairs() =~= before.update(i as int, (key@, value@)));
                proof {
                    lemma_update_pair(before, i as int, value@);
                }
                return;
            }
            i = i + 1;
        }
        let ghost before = self.pairs();
        self.entries.push((key, value));
        assert(self.pairs() =~= before.push((key@, value@)));
        assert(self.pairs().drop_last() =~= before);
        assert(keys_unique(self.pairs())) by {
            assert forall|a: int, b: int| 0 <= a < b < self.pairs().len() implies (
            #[trigger] self.pairs()[a]).0 != (#[trigger] self.pairs()[b]).0 by {
                if b < n {
                    assert(self.pairs()[a] == before[a]);
                    assert(self.pairs()[b] == before[b]);
                } else {
                    assert(self.pairs()[a] == before[a]);
                }
            }
        }
    }

    /// Whether no variable is set.
    pub fn is_empty(&self) -> (r: bool)
        ensures
            r == (self@ == Map::<Seq<char>, Seq<char>>::empty()),
    {
        if self.entries.len() == 0 {
            assert(self.pairs() =~= Seq::<(Seq<char>, Seq<char>)>::empty());
            true
        } else {
            let ghost ps = self.pairs();
            assert(ps.len() > 0);
            assert(self@.contains_key(ps.last().0));
            false
        }
    }

    /// The variables in the order in which they were first set.
    pub fn entries(&self) -> (r: &Vec<(String, String)>)
        ensures
            r@.map_values(|e: (String, String)| (e.0@, e.1@)) == self.pairs(),
    {
        &self.entries
    }

    /// The variables as `KEY=VALUE` lines, one per variable.
    pub fn to_text(&self) -> (r: String)
        ensures
            r@ == env_text(self.pairs()),
    {
        let ghost ls = self.pairs().map_values(|p: (Seq<char>, Seq<char>)| env_line(p));
        let mut out: Vec<char> = Vec::new();
        let mut k: usize = 0;
        while k < self.entries.len()
            invariant
                k <= self.entries.len(),
                ls == self.pairs().map_values(|p: (Seq<char>, Seq<char>)| env_line(p)),
                out@ == join_with(ls.take(k as int), seq!['\n']),
            decreases self.entries.len() - k,
        {
            let ghost before = out@;
            if k > 0 {
                out.push('\n');
            }
            let key = chars_of(self.entries[k].0.as_str());
            let value = chars_of(self.entries[k].1.as_str());
            append_chars(&mut out, &key);
            out.push('=');
            append_chars(&mut out, &value);
            assert(ls.take(k + 1).drop_last() =~= ls.take(k as int));
            assert(ls.take(k + 1).last() == ls[k as int]);
            if k > 0 {
                assert(out@ =~= before + seq!['\n'] + ls[k as int]);
            } else {
                assert(out@ =~= ls[0]);
            }
            k = k + 1;
        }
        assert(ls.take(self.entries.len() as int) =~= ls);
        string_from(&out, 0, out.len())
    }
}

impl View for EnvVars {
    type V = Map<Seq<char>, Seq<char>>;

    open spec fn view(&self) -> Map<Seq<char>, Seq<char>> {
        pairs_map(self.pairs())
    }
}

proof fn lemma_update_pair(ps: Seq<(Seq<char>, Seq<char>)>, i: int, v: Seq<char>)
    requires
        keys_unique(ps),
        0 <= i < ps.len(),
    ensures
        keys_unique(ps.update(i, (ps[i].0, v))),
        pairs_map(ps.update(i, (ps[i].0, v))) == pairs_map(ps).insert(ps[i].0, v),
    decreases ps.len(),
{
    let qs = ps.update(i, (ps[i].0, v));
    assert(keys_unique(qs)) by {
        assert forall|a: int, b: int| 0 <= a < b < qs.len() implies (#[trigger] qs[a]).0 != (
        #[trigger] qs[b]).0 by {
            assert(qs[a].0 == ps[a].0);
            assert(qs[b].0 == ps[b].0);
        }
    }
    if i == ps.len() - 1 {
        assert(qs.drop_last() =~= ps.drop_last());
        assert(pairs_map(qs) =~= pairs_map(ps).insert(ps[i].0, v));
    } else {
        let init = ps.drop_last();
        assert(keys_unique(init)) by {
            assert forall|a: int, b: int| 0 <= a < b < init.len() implies (#[trigger] init[a]).0
                != (#[trigger] init[b]).0 by {
                assert(init[a] == ps[a]);
                assert(init[b] == ps[b]);
            }
        }
        lemma_update_pair(init, i, v);
        assert(qs.drop_last() =~= init.update(i, (init[i].0, v)));
        assert(ps[i].0 != ps.last().0) by {
            assert(ps[i].0 != ps[ps.len() - 1].0);
        }
        assert(qs.last() == ps.last());
        assert(pairs_map(qs) =~= pairs_map(ps).insert(ps[i].0, v));
    }
}

/// Reads edited text into variables: each line is trimmed and split at its
/// first `=`, keys and values are trimmed, lines without `=` or with a blank
/// key are skipped, and a later line wins over an earlier one with the same
/// key.
pub fn parse_env_text(text: &str) -> (r: EnvVars)
    ensures
        r.wf(),
        r@ == parse_env(text@),
{
    let v = chars_of(text);
    let ranges = line_ranges(&v);
    let mut vars = EnvVars::new();
    let ghost ls = lines_of(text@);
    let mut k: usize = 0;
    while k < ranges.len()
        invariant
            k <= ranges.len(),
            v@ == text@,
            ls == lines_of(text@),
            ranges_within(ranges@, v.len() as int),
            pieces(v@, ranges@) == ls,
            vars.wf(),
            vars@ == lines_map(ls.take(k as int)),
        decreases ranges.len() - k,
    {
        let (a, b) = ranges[k];
        assert(ranges@[k as int].0 <= ranges@[k as int].1 <= v.len());
        assert(pieces(v@, ranges@)[k as int] == v@.subrange(a as int, b as int));
        let ghost line = v@.subrange(a as int, b as int);
        let ghost t = trim(line);
        let (s, e) = trim_range(&v, a, b);
        let p = find_char(&v, s, e, '=');
        assert(ls.take(k + 1).drop_last() =~= ls.take(k as int));
        assert(ls.take(k + 1).last() == line);
        if p < e {
            let (ks, ke) = trim_range(&v, s, p);
            let (vs, ve) = trim_range(&v, p + 1, e);
            assert(t.take(p - s) =~= v@.subrange(s as int, p as int));
            assert(t.skip(p - s + 1) =~= v@.subrange(p + 1, e as int));
            if ks < ke {
                let key = string_from(&v, ks, ke);
                let value = string_from(&v, vs, ve);
                vars.insert(key, value);
            }
        }
        k = k + 1;
    }
    assert(ls.take(ranges.len() as int) =~= ls);
    vars
}

proof fn lemma_trim_start_len(s: Seq<char>)
    ensures
        trim_start(s).len() <= s.len(),
        s.len() > 0 && is_space(s[0]) ==> trim_start(s).len() < s.len(),
    decreases s.len(),
{
    if s.len() > 0 && is_space(s[0]) {
        lemma_trim_start_len(s.drop_first());
    }
}

proof fn lemma_trim_end_len(s: Seq<char>)
    ensures
        trim_end(s).len() <= s.len(),
        s.len() > 0 && is_space(s.last()) ==> trim_end(s).len() < s.len(),
    decreases s.len(),
{
    if s.len() > 0 && is_space(s.last()) {
        lemma_trim_end_len(s.drop_last());
    }
}

/// A non-empty text that is its own trim has no white space at its ends.
proof fn lemma_trimmed_ends(s: Seq<char>)
    requires
        trim(s) == s,
        s.len() > 0,
    ensures
        !is_space(s[0]),
        !is_space(s.last()),
{
    lemma_trim_start_len(s);
    lemma_trim_end_len(trim_start(s));
    if is_space(s.last()) {
        if trim_start(s) == s {
            assert(trim_end(s).len() < s.len());
        } else {
            assert(trim_start(s).len() < s.len());
        }
    }
}

proof fn lemma_line_of_pair(p: (Seq<char>, Seq<char>))
    requires
        writable_pair(p),
    ensures
        env_entry(env_line(p)) == Some(p),
        !has_char(env_line(p), '\n'),
        env_line(p).len() > 0,
        strip_cr(env_line(p)) == env_line(p),
{
    let line = env_line(p);
    lemma_trimmed_ends(p.0);
    assert(line[0] == p.0[0]);
    if p.1.len() > 0 {
        lemma_trimmed_ends(p.1);
        assert(line.last() == p.1.last());
    } else {
        assert(line.last() == '=');
    }
    crate::text::lemma_trim_fixed(line);
    crate::text::lemma_index_of_concat(p.0, p.1, '=');
    assert(line.take(p.0.len() as int) =~= p.0);
    assert(line.skip(p.0.len() as int + 1) =~= p.1);
    assert(!has_char(line, '\n')) by {
        if has_char(line, '\n') {
            let k = choose|k: int| 0 <= k < line.len() && line[k] == '\n';
            if k < p.0.len() {
                assert(p.0[k] == '\n');
            } else if k > p.0.len() {
                assert(p.1[k - p.0.len() - 1] == '\n');
            }
        }
    }
}

proof fn lemma_lines_map_of_pairs(ls: Seq<Seq<char>>, ps: Seq<(Seq<char>, Seq<char>)>)
    requires
        ls.len() == ps.len(),
        forall|k: int| 0 <= k < ls.len() ==> env_entry(#[trigger] ls[k]) == Some(ps[k]),
    ensures
        lines_map(ls) == pairs_map(ps),
    decreases ls.len(),
{
    if ls.len() > 0 {
        let li = ls.drop_last();
        let pi = ps.drop_last();
        assert forall|k: int| 0 <= k < li.len() implies env_entry(#[trigger] li[k]) == Some(
            pi[k],
        ) by {
            assert(li[k] == ls[k]);
        }
        lemma_lines_map_of_pairs(li, pi);
        assert(env_entry(ls[ls.len() - 1]) == Some(ps[ps.len() - 1]));
    }
}

/// Writing variables out as text and reading the text back gives the same
/// map, for every pair with a non-blank key free of `=` and newlines, a value
/// free of newlines, and no white space at the ends of either.
pub proof fn lemma_env_round_trip(ps: Seq<(Seq<char>, Seq<char>)>)
    requires
        forall|k: int| 0 <= k < ps.len() ==> writable_pair(#[trigger] ps[k]),
    ensures
        parse_env(env_text(ps)) == pairs_map(ps),
{
    let ls = ps.map_values(|p: (Seq<char>, Seq<char>)| env_line(p));
    assert forall|k: int| 0 <= k < ls.len() implies env_entry(#[trigger] ls[k]) == Some(ps[k])
        && !has_char(ls[k], '\n') && strip_cr(ls[k]) == ls[k] && ls[k].len() > 0 by {
        lemma_line_of_pair(ps[k]);
    }
    if ps.len() == 0 {
        assert(env_text(ps) =~= Seq::<char>::empty());
        assert(lines_of(env_text(ps)) =~= Seq::<Seq<char>>::empty());
    } else {
        crate::text::lemma_split_join(ls, '\n');
        assert(split_on(env_text(ps), '\n') == ls);
        assert(ls.last() == ls[ls.len() - 1]);
        assert(lines_of(env_text(ps)) =~= ls);
    }
    lemma_lines_map_of_pairs(lines_of(env_text(ps)), ps);
}

/// The same law for a set of variables: its text reads back as itself.
pub proof fn lemma_vars_round_trip(vars: EnvVars)
    requires
        vars.wf(),
        forall|k: int| 0 <= k < vars.pairs().len() ==> writable_pair(#[trigger] vars.pairs()[k]),
    ensures
        parse_env(env_text(vars.pairs())) == vars@,
{
    lemma_env_round_trip(vars.pairs());
}

} // verus!
