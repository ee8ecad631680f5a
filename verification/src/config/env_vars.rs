//! Expansion of environment variables inside artifact paths.
//!
//! Windows paths name variables as `%NAME%`; Unix paths as `$NAME` or
//! `${NAME}`.  The environment is handed in as a snapshot of (name, value)
//! pairs, read once by the program that runs the collection.
use vstd::prelude::*;
use crate::text::{
    chars_of, chars_eq, contains_char_exec, str_eq, string_of, slice_of, find_char_from,
    replace_first_exec, find_char, find_sub, replace_first, lemma_find_char_some, lemma_find_sub_some,
};

verus! {

/// A snapshot of the process environment: (name, value) pairs.
pub struct Environment {
    pub vars: Vec<(String, String)>,
}

/// The names and values of `vars` as character sequences.
pub open spec fn env_view(vars: Seq<(String, String)>) -> Seq<(Seq<char>, Seq<char>)> {
    vars.map_values(|p: (String, String)| (p.0@, p.1@))
}

impl View for Environment {
    type V = Seq<(Seq<char>, Seq<char>)>;

    open spec fn view(&self) -> Seq<(Seq<char>, Seq<char>)> {
        env_view(self.vars@)
    }
}

/// The value of the first entry named `name`.
pub open spec fn lookup(env: Seq<(Seq<char>, Seq<char>)>, name: Seq<char>) -> Option<Seq<char>>
    decreases env.len(),
{
    if env.len() == 0 {
        None
    } else if env[0].0 == name {
        Some(env[0].1)
    } else {
        lookup(env.drop_first(), name)
    }
}

/// Whether `name` can name a variable at all: it is not empty and holds neither `=` nor NUL.
pub open spec fn valid_var_name(name: Seq<char>) -> bool {
    name.len() > 0 && !name.contains('=') && !name.contains('\0')
}

/// What reading the variable `name` from `env` gives.
pub open spec fn env_var(env: Seq<(Seq<char>, Seq<char>)>, name: Seq<char>) -> Option<Seq<char>> {
    if valid_var_name(name) {
        lookup(env, name)
    } else {
        None
    }
}

/// `env` without any entry named `name`.
pub open spec fn without(env: Seq<(Seq<char>, Seq<char>)>, name: Seq<char>) -> Seq<(Seq<char>, Seq<char>)>
    decreases env.len(),
{
    if env.len() == 0 {
        env
    } else if env[0].0 == name {
        without(env.drop_first(), name)
    } else {
        seq![env[0]] + without(env.drop_first(), name)
    }
}

/// Every value that a lookup can return satisfies `p` when every stored value does.
pub proof fn lemma_lookup_value(
    env: Seq<(Seq<char>, Seq<char>)>,
    name: Seq<char>,
    p: spec_fn(Seq<char>) -> bool,
)
    requires
        forall|k: int| 0 <= k < env.len() ==> #[trigger] p(env[k].1),
    ensures
        lookup(env, name) matches Some(v) ==> p(v),
    decreases env.len(),
{
    if env.len() > 0 {
        assert(p(env[0].1));
        let rest = env.drop_first();
        assert forall|k: int| 0 <= k < rest.len() implies #[trigger] p(rest[k].1) by {
            assert(rest[k] == env[k + 1]);
            assert(p(env[k + 1].1));
        }
        lemma_lookup_value(rest, name, p);
    }
}

/// A lookup through a concatenation finds the first part's entry first.
pub proof fn lemma_lookup_append(
    a: Seq<(Seq<char>, Seq<char>)>,
    b: Seq<(Seq<char>, Seq<char>)>,
    name: Seq<char>,
)
    ensures
        lookup(a + b, name) == match lookup(a, name) {
            Some(v) => Some(v),
            None => lookup(b, name),
        },
    decreases a.len(),
{
    if a.len() == 0 {
        assert(a + b =~= b);
    } else {
        assert((a + b)[0] == a[0]);
        assert((a + b).drop_first() =~= a.drop_first() + b);
        lemma_lookup_append(a.drop_first(), b, name);
    }
}

/// Removing the entries named `n` hides `n` and keeps every other name.
pub proof fn lemma_lookup_without(env: Seq<(Seq<char>, Seq<char>)>, n: Seq<char>, x: Seq<char>)
    ensures
        lookup(without(env, n), x) == if x == n {
            None
        } else {
            lookup(env, x)
        },
    decreases env.len(),
{
    if env.len() > 0 {
        lemma_lookup_without(env.drop_first(), n, x);
        if env[0].0 != n {
            let single = seq![env[0]];
            assert(single[0] == env[0]);
            assert(single.drop_first() =~= Seq::<(Seq<char>, Seq<char>)>::empty());
            assert(lookup(single.drop_first(), x) is None);
            lemma_lookup_append(single, without(env.drop_first(), n), x);
        }
    }
}

/// The entries of `without(env, n)` are entries of `env`.
pub proof fn lemma_without_values(
    env: Seq<(Seq<char>, Seq<char>)>,
    n: Seq<char>,
    p: spec_fn(Seq<char>) -> bool,
)
    requires
        forall|k: int| 0 <= k < env.len() ==> #[trigger] p(env[k].1),
    ensures
        forall|k: int| 0 <= k < without(env, n).len() ==> #[trigger] p(without(env, n)[k].1),
    decreases env.len(),
{
    if env.len() > 0 {
        let rest = env.drop_first();
        assert forall|k: int| 0 <= k < rest.len() implies #[trigger] p(rest[k].1) by {
            assert(rest[k] == env[k + 1]);
            assert(p(env[k + 1].1));
        }
        lemma_without_values(rest, n, p);
        if env[0].0 == n {
            assert(without(env, n) == without(rest, n));
        } else {
            let w = without(env, n);
            assert forall|k: int| 0 <= k < w.len() implies #[trigger] p(w[k].1) by {
                if k == 0 {
                    assert(p(env[0].1));
                } else {
                    assert(w[k] == without(rest, n)[k - 1]);
                }
            }
        }
    }
}

impl Environment {
    /// An empty environment.
    pub fn new() -> (e: Environment)
        ensures
            e@ == Seq::<(Seq<char>, Seq<char>)>::empty(),
    {
        let e = Environment { vars: Vec::new() };
        assert(e@ =~= Seq::<(Seq<char>, Seq<char>)>::empty());
        e
    }

    /// Sets `name` to `value`, replacing any earlier entry of that name.
    pub fn set(&mut self, name: &str, value: &str)
        ensures
            final(self)@ == without(old(self)@, name@).push((name@, value@)),
    {
        let mut kept: Vec<(String, String)> = Vec::new();
        let mut i: usize = 0;
        while i < self.vars.len()
            invariant
                i <= self.vars.len(),
                self.vars@ == old(self).vars@,
                env_view(kept@) =~= without_prefix(env_view(self.vars@), name@, i as int),
            decreases self.vars.len() - i,
        {
            let same = str_eq(self.vars[i].0.as_str(), name);
            if !same {
                let entry = (self.vars[i].0.clone(), self.vars[i].1.clone());
                kept.push(entry);
            }
            proof {
                lemma_without_prefix_step(env_view(self.vars@), name@, i as int);
            }
            i += 1;
        }
        proof {
            lemma_without_prefix_full(env_view(self.vars@), name@);
        }
        kept.push((String::from_str(name), String::from_str(value)));
        self.vars = kept;
        assert(self@ =~= without(env_view(old(self).vars@), name@).push((name@, value@)));
    }

    /// Removes every entry named `name`.
    pub fn remove(&mut self, name: &str)
        ensures
            final(self)@ == without(old(self)@, name@),
    {
        let mut kept: Vec<(String, String)> = Vec::new();
        let mut i: usize = 0;
        while i < self.vars.len()
            invariant
                i <= self.vars.len(),
                self.vars@ == old(self).vars@,
                env_view(kept@) =~= without_prefix(env_view(self.vars@), name@, i as int),
            decreases self.vars.len() - i,
        {
            let same = str_eq(self.vars[i].0.as_str(), name);
            if !same {
                let entry = (self.vars[i].0.clone(), self.vars[i].1.clone());
                kept.push(entry);
            }
            proof {
                lemma_without_prefix_step(env_view(self.vars@), name@, i as int);
            }
            i += 1;
        }
        proof {
            lemma_without_prefix_full(env_view(self.vars@), name@);
        }
        self.vars = kept;
    }

    /// Reads the variable `name`.
    pub fn var(&self, name: &Vec<char>) -> (r: Option<Vec<char>>)
        ensures
            r matches Some(v) ==> env_var(self@, name@) == Some(v@),
            r is None ==> env_var(self@, name@) is None,
    {
        if name.len() == 0 || contains_char_exec(name, '=') || contains_char_exec(name, '\0') {
            return None;
        }
        let mut i: usize = 0;
        assert(self@.subrange(0, self@.len() as int) =~= self@);
        while i < self.vars.len()
            invariant
                i <= self.vars.len(),
                valid_var_name(name@),
                lookup(self@, name@) == lookup(self@.subrange(i as int, self@.len() as int), name@),
            decreases self.vars.len() - i,
        {
            let key = chars_of(self.vars[i].0.as_str());
            let ghost rest = self@.subrange(i as int, self@.len() as int);
            assert(rest[0] == self@[i as int]);
            assert(rest.drop_first() =~= self@.subrange(i + 1, self@.len() as int));
            if chars_eq(&key, name) {
                return Some(chars_of(self.vars[i].1.as_str()));
            }
            i += 1;
        }
        None
    }
}

/// The entries of `env` before position `i`, without those named `name`.
pub open spec fn without_prefix(env: Seq<(Seq<char>, Seq<char>)>, name: Seq<char>, i: int) -> Seq<(Seq<char>, Seq<char>)>
    decreases i,
{
    if i <= 0 {
        Seq::empty()
    } else if env[i - 1].0 == name {
        without_prefix(env, name, i - 1)
    } else {
        without_prefix(env, name, i - 1).push(env[i - 1])
    }
}

pub proof fn lemma_without_prefix_step(env: Seq<(Seq<char>, Seq<char>)>, name: Seq<char>, i: int)
    requires
        0 <= i < env.len(),
    ensures
        without_prefix(env, name, i + 1) == if env[i].0 == name {
            without_prefix(env, name, i)
        } else {
            without_prefix(env, name, i).push(env[i])
        },
{
}

/// Removing by prefixes and removing all at once agree.
pub proof fn lemma_without_prefix_full(env: Seq<(Seq<char>, Seq<char>)>, name: Seq<char>)
    ensures
        without_prefix(env, name, env.len() as int) == without(env, name),
    decreases env.len(),
{
    if env.len() > 0 {
        let rest = env.drop_first();
        lemma_without_prefix_full(rest, name);
        lemma_without_prefix_shift(env, name, env.len() as int);
    }
}

/// Prefix removal over `env` is the first entry (if kept) followed by prefix removal over the rest.
pub proof fn lemma_without_prefix_shift(env: Seq<(Seq<char>, Seq<char>)>, name: Seq<char>, i: int)
    requires
        1 <= i <= env.len(),
    ensures
        without_prefix(env, name, i) == (if env[0].0 == name {
            Seq::empty()
        } else {
            seq![env[0]]
        }) + without_prefix(env.drop_first(), name, i - 1),
    decreases i,
{
    if i == 1 {
        assert(without_prefix(env.drop_first(), name, 0) =~= Seq::<(Seq<char>, Seq<char>)>::empty());
        if env[0].0 == name {
            assert(without_prefix(env, name, 0) =~= Seq::<(Seq<char>, Seq<char>)>::empty());
            assert(Seq::<(Seq<char>, Seq<char>)>::empty() + Seq::<(Seq<char>, Seq<char>)>::empty() =~= Seq::<(Seq<char>, Seq<char>)>::empty());
        } else {
            assert(without_prefix(env, name, 0) =~= Seq::<(Seq<char>, Seq<char>)>::empty());
            assert(without_prefix(env, name, 1) =~= seq![env[0]]);
            assert(seq![env[0]] + Seq::<(Seq<char>, Seq<char>)>::empty() =~= seq![env[0]]);
        }
    } else {
        lemma_without_prefix_shift(env, name, i - 1);
        let head: Seq<(Seq<char>, Seq<char>)> = if env[0].0 == name {
            Seq::empty()
        } else {
            seq![env[0]]
        };
        assert(env.drop_first()[i - 2] == env[i - 1]);
        if env[i - 1].0 != name {
            assert(head + without_prefix(env.drop_first(), name, i - 2).push(env[i - 1]) =~= (head
                + without_prefix(env.drop_first(), name, i - 2)).push(env[i - 1]));
        }
    }
}

/// The characters that may continue a `$NAME`: ASCII letters, digits and `_`.
pub open spec fn is_name_char(c: char) -> bool {
    ('a' <= c && c <= 'z') || ('A' <= c && c <= 'Z') || ('0' <= c && c <= '9') || c == '_'
}

/// The end of the run of name characters in `s` that starts at `j`.
pub open spec fn name_end(s: Seq<char>, j: int) -> int
    decreases s.len() - j,
{
    if j < 0 || j >= s.len() || !is_name_char(s[j]) {
        j
    } else {
        name_end(s, j + 1)
    }
}

pub proof fn lemma_name_end(s: Seq<char>, j: int)
    requires
        0 <= j <= s.len(),
    ensures
        j <= name_end(s, j) <= s.len(),
        forall|k: int| j <= k < name_end(s, j) ==> is_name_char(#[trigger] s[k]),
        name_end(s, j) < s.len() ==> !is_name_char(s[name_end(s, j)]),
    decreases s.len() - j,
{
    if j < s.len() && is_name_char(s[j]) {
        lemma_name_end(s, j + 1);
    }
}

/// The end of the run of name characters in `v` that starts at `j`.
fn name_end_exec(v: &Vec<char>, j: usize) -> (r: usize)
    requires
        j <= v.len(),
    ensures
        r as int == name_end(v@, j as int),
{
    let mut k = j;
    while k < v.len()
        invariant
            j <= k <= v.len(),
            name_end(v@, j as int) == name_end(v@, k as int),
        decreases v.len() - k,
    {
        let c = v[k];
        if !(('a' <= c && c <= 'z') || ('A' <= c && c <= 'Z') || ('0' <= c && c <= '9') || c == '_') {
            return k;
        }
        k += 1;
    }
    k
}

/// `open` + `name` + `close`, as characters.
fn framed(open: &Vec<char>, name: &Vec<char>, close: &Vec<char>) -> (r: Vec<char>)
    ensures
        r@ == open@ + name@ + close@,
{
    let mut r = open.clone();
    crate::text::append_chars(&mut r, name);
    crate::text::append_chars(&mut r, close);
    r
}

/// The three passes of variable expansion: Windows-style `%NAME%`, then,
/// for Unix-style paths, `${NAME}` followed by `$NAME`.
#[derive(Clone, Copy)]
pub enum ExpansionPass {
    Percent,
    Braces,
    Dollar,
}

/// What one scan of a pass finds, resuming at a position: nothing more to
/// do; nothing to replace before a later position, where the scan resumes;
/// or the text after one replacement, where the pass starts over.
pub enum ScanResult {
    Done,
    Skip(int),
    Replace(Seq<char>),
}

/// The value of `name` for a `${NAME}`: its value, or nothing when it is not set.
pub open spec fn brace_value(env: Seq<(Seq<char>, Seq<char>)>, name: Seq<char>) -> Seq<char> {
    match env_var(env, name) {
        Some(v) => v,
        None => Seq::empty(),
    }
}

/// One scan of `pass` over `s`, resuming at position `i`.
///
/// `Percent`: the next `%` at or after `i` opens a name that the following
/// `%` closes; a set name has the first `%NAME%` of the whole text replaced
/// by its value, an unset one is passed over, and so is an unclosed `%`.
///
/// `Braces`: the first `${` and the next `}` after it delimit a name; the
/// first `${NAME}` is replaced by its value, or removed when it is not set;
/// an unclosed `${` ends the pass.
///
/// `Dollar`: a `$` at or after `i` followed by name characters names a
/// variable; a set one has the first `$NAME` of the whole text replaced by
/// its value, an unset one is passed over; a `$` at the end or before `{`
/// is passed over.
pub open spec fn scan(pass: ExpansionPass, env: Seq<(Seq<char>, Seq<char>)>, s: Seq<char>, i: int) -> ScanResult {
    match pass {
        ExpansionPass::Percent => match find_char(s, '%', i) {
            None => ScanResult::Done,
            Some(rs) => match find_char(s, '%', rs + 1) {
                None => ScanResult::Skip(rs + 1),
                Some(re) => {
                    let name = s.subrange(rs + 1, re);
                    match env_var(env, name) {
                        Some(val) => ScanResult::Replace(replace_first(s, seq!['%'] + name + seq!['%'], val)),
                        None => ScanResult::Skip(re + 1),
                    }
                },
            },
        },
        ExpansionPass::Braces => match find_sub(s, seq!['$', '{'], 0) {
            None => ScanResult::Done,
            Some(st) => match find_char(s, '}', st + 2) {
                None => ScanResult::Done,
                Some(e) => {
                    let name = s.subrange(st + 2, e);
                    ScanResult::Replace(replace_first(s, seq!['$', '{'] + name + seq!['}'], brace_value(env, name)))
                },
            },
        },
        ExpansionPass::Dollar => if i >= s.len() {
            ScanResult::Done
        } else {
            match find_char(s, '$', i) {
                None => ScanResult::Done,
                Some(vs) => if vs + 1 >= s.len() || s[vs + 1] == '{' {
                    ScanResult::Skip(vs + 1)
                } else {
                    let ve = name_end(s, vs + 1);
                    if ve > vs + 1 {
                        let name = s.subrange(vs + 1, ve);
                        match env_var(env, name) {
                            Some(val) => ScanResult::Replace(replace_first(s, seq!['$'] + name, val)),
                            None => ScanResult::Skip(ve),
                        }
                    } else {
                        ScanResult::Skip(vs + 1)
                    }
                },
            }
        },
    }
}

/// A scan that skips always moves forward and stays within the text.
pub proof fn lemma_scan_skip(pass: ExpansionPass, env: Seq<(Seq<char>, Seq<char>)>, s: Seq<char>, i: int)
    requires
        0 <= i <= s.len(),
    ensures
        scan(pass, env, s, i) matches ScanResult::Skip(j) ==> i < j <= s.len(),
{
    match pass {
        ExpansionPass::Percent => {
            lemma_find_char_some(s, '%', i);
            if let Some(rs) = find_char(s, '%', i) {
                lemma_find_char_some(s, '%', rs + 1);
            }
        },
        ExpansionPass::Braces => {},
        ExpansionPass::Dollar => {
            lemma_find_char_some(s, '$', i);
            if let Some(vs) = find_char(s, '$', i) {
                if vs + 1 < s.len() {
                    lemma_name_end(s, vs + 1);
                }
            }
        },
    }
}

/// Running `pass` over `s` from position `i`, with at most `fuel`
/// replacements: the text it ends with, or `None` where it would make more.
pub open spec fn pass_steps(
    pass: ExpansionPass,
    env: Seq<(Seq<char>, Seq<char>)>,
    s: Seq<char>,
    i: int,
    fuel: nat,
) -> Option<Seq<char>>
    decreases fuel, s.len() - i,
{
    if i < 0 || i > s.len() {
        Some(s)
    } else {
        match scan(pass, env, s, i) {
            ScanResult::Done => Some(s),
            ScanResult::Skip(j) => if i < j <= s.len() {
                pass_steps(pass, env, s, j, fuel)
            } else {
                Some(s)
            },
            ScanResult::Replace(t) => if fuel == 0 {
                None
            } else {
                pass_steps(pass, env, t, 0, (fuel - 1) as nat)
            },
        }
    }
}

/// Whether `pass` over `s` ends: some number of replacements finishes it.
pub open spec fn pass_ends(pass: ExpansionPass, env: Seq<(Seq<char>, Seq<char>)>, s: Seq<char>) -> bool {
    exists|fuel: nat| (#[trigger] pass_steps(pass, env, s, 0, fuel)) is Some
}

/// The text `pass` over `s` ends with, where it ends.
pub open spec fn pass_result(pass: ExpansionPass, env: Seq<(Seq<char>, Seq<char>)>, s: Seq<char>) -> Seq<char> {
    let fuel = choose|fuel: nat| (#[trigger] pass_steps(pass, env, s, 0, fuel)) is Some;
    match pass_steps(pass, env, s, 0, fuel) {
        Some(r) => r,
        None => s,
    }
}

/// A pass that ends within some number of replacements ends the same way
/// with more allowed.
pub proof fn lemma_pass_steps_more(
    pass: ExpansionPass,
    env: Seq<(Seq<char>, Seq<char>)>,
    s: Seq<char>,
    i: int,
    fuel: nat,
    more: nat,
)
    requires
        fuel <= more,
        pass_steps(pass, env, s, i, fuel) is Some,
    ensures
        pass_steps(pass, env, s, i, more) == pass_steps(pass, env, s, i, fuel),
    decreases fuel, s.len() - i,
{
    if 0 <= i <= s.len() {
        match scan(pass, env, s, i) {
            ScanResult::Done => {},
            ScanResult::Skip(j) => {
                if i < j <= s.len() {
                    lemma_pass_steps_more(pass, env, s, j, fuel, more);
                }
            },
            ScanResult::Replace(t) => {
                lemma_pass_steps_more(pass, env, t, 0, (fuel - 1) as nat, (more - 1) as nat);
            },
        }
    }
}

/// Where a pass ends within `fuel` replacements, it ends, with that text.
pub proof fn lemma_pass_result(pass: ExpansionPass, env: Seq<(Seq<char>, Seq<char>)>, s: Seq<char>, fuel: nat)
    requires
        pass_steps(pass, env, s, 0, fuel) is Some,
    ensures
        pass_ends(pass, env, s),
        pass_steps(pass, env, s, 0, fuel) == Some(pass_result(pass, env, s)),
{
    let chosen = choose|f: nat| (#[trigger] pass_steps(pass, env, s, 0, f)) is Some;
    if chosen <= fuel {
        lemma_pass_steps_more(pass, env, s, 0, chosen, fuel);
    } else {
        lemma_pass_steps_more(pass, env, s, 0, fuel, chosen);
    }
}

/// What one scan finds, as the library computes it.
pub enum ScanStep {
    Done,
    Skip(usize),
    Replace(Vec<char>),
}

/// Whether `step` is what `scan` finds.
pub open spec fn is_scan(step: ScanStep, expected: ScanResult) -> bool {
    match step {
        ScanStep::Done => expected is Done,
        ScanStep::Skip(j) => expected == ScanResult::Skip(j as int),
        ScanStep::Replace(t) => expected == ScanResult::Replace(t@),
    }
}

/// One scan of `pass` over `s` from position `i`, as `scan` says.
fn scan_exec(pass: ExpansionPass, env: &Environment, s: &Vec<char>, i: usize) -> (r: ScanStep)
    requires
        i <= s.len(),
    ensures
        is_scan(r, scan(pass, env@, s@, i as int)),
{
    match pass {
        ExpansionPass::Percent => match find_char_from(s, '%', i) {
            None => ScanStep::Done,
            Some(rs) => {
                proof {
                    lemma_find_char_some(s@, '%', i as int);
                }
                match find_char_from(s, '%', rs + 1) {
                    None => ScanStep::Skip(rs + 1),
                    Some(re) => {
                        proof {
                            lemma_find_char_some(s@, '%', rs + 1);
                        }
                        let name = slice_of(s, rs + 1, re);
                        match env.var(&name) {
                            Some(val) => {
                                let percent = vec!['%'];
                                assert(percent@ =~= seq!['%']);
                                let pat = framed(&percent, &name, &percent);
                                ScanStep::Replace(replace_first_exec(s, &pat, &val))
                            },
                            None => ScanStep::Skip(re + 1),
                        }
                    },
                }
            },
        },
        ExpansionPass::Braces => {
            let open = vec!['$', '{'];
            assert(open@ =~= seq!['$', '{']);
            match find_sub_from_exec(s, &open) {
                None => ScanStep::Done,
                Some(st) => {
                    proof {
                        lemma_find_sub_some(s@, open@, 0);
                    }
                    assert(st + 2 <= s.len());
                    match find_char_from(s, '}', st + 2) {
                        None => ScanStep::Done,
                        Some(e) => {
                            proof {
                                lemma_find_char_some(s@, '}', st + 2);
                            }
                            let name = slice_of(s, st + 2, e);
                            let close = vec!['}'];
                            assert(close@ =~= seq!['}']);
                            let pat = framed(&open, &name, &close);
                            let val = match env.var(&name) {
                                Some(v) => v,
                                None => Vec::new(),
                            };
                            assert(val@ =~= brace_value(env@, name@));
                            ScanStep::Replace(replace_first_exec(s, &pat, &val))
                        },
                    }
                },
            }
        },
        ExpansionPass::Dollar => {
            if i >= s.len() {
                return ScanStep::Done;
            }
            match find_char_from(s, '$', i) {
                None => ScanStep::Done,
                Some(vs) => {
                    proof {
                        lemma_find_char_some(s@, '$', i as int);
                    }
                    if vs + 1 >= s.len() || s[vs + 1] == '{' {
                        ScanStep::Skip(vs + 1)
                    } else {
                        let ve = name_end_exec(s, vs + 1);
                        proof {
                            lemma_name_end(s@, vs + 1);
                        }
                        if ve > vs + 1 {
                            let name = slice_of(s, vs + 1, ve);
                            match env.var(&name) {
                                Some(val) => {
                                    let dollar = vec!['$'];
                                    assert(dollar@ =~= seq!['$']);
                                    let empty: Vec<char> = Vec::new();
                                    let pat = framed(&dollar, &name, &empty);
                                    assert(pat@ =~= seq!['$'] + name@);
                                    ScanStep::Replace(replace_first_exec(s, &pat, &val))
                                },
                                None => ScanStep::Skip(ve),
                            }
                        } else {
                            ScanStep::Skip(vs + 1)
                        }
                    }
                },
            }
        },
    }
}

/// Runs `pass` over `s` to its end.
fn run_pass(pass: ExpansionPass, env: &Environment, s: Vec<char>) -> (r: Vec<char>)
    requires
        pass_ends(pass, env@, s@),
    ensures
        r@ == pass_result(pass, env@, s@),
{
    let ghost mut fuel: nat = choose|f: nat| (#[trigger] pass_steps(pass, env@, s@, 0, f)) is Some;
    proof {
        lemma_pass_result(pass, env@, s@, fuel);
    }
    let ghost target = pass_result(pass, env@, s@);
    let mut result = s;
    let mut i: usize = 0;
    loop
        invariant
            i <= result.len(),
            pass_steps(pass, env@, result@, i as int, fuel) == Some(target),
        ensures
            result@ == target,
        decreases fuel, result.len() - i,
    {
        proof {
            lemma_scan_skip(pass, env@, result@, i as int);
        }
        match scan_exec(pass, env, &result, i) {
            ScanStep::Done => {
                break;
            },
            ScanStep::Skip(j) => {
                i = j;
            },
            ScanStep::Replace(t) => {
                result = t;
                i = 0;
                proof {
                    fuel = (fuel - 1) as nat;
                }
            },
        }
    }
    result
}

/// Runs `pass` over `s` with at most `budget` replacements: the text it ends
/// with, or `None` where it would make more.
fn run_pass_within(pass: ExpansionPass, env: &Environment, s: &Vec<char>, budget: u64) -> (r: Option<Vec<char>>)
    ensures
        match r {
            Some(t) => pass_steps(pass, env@, s@, 0, budget as nat) == Some(t@),
            None => pass_steps(pass, env@, s@, 0, budget as nat) is None,
        },
{
    let mut left = budget;
    let mut result = s.clone();
    let mut i: usize = 0;
    loop
        invariant
            i <= result.len(),
            pass_steps(pass, env@, s@, 0, budget as nat) == pass_steps(pass, env@, result@, i as int, left as nat),
        decreases left, result.len() - i,
    {
        proof {
            lemma_scan_skip(pass, env@, result@, i as int);
        }
        match scan_exec(pass, env, &result, i) {
            ScanStep::Done => {
                assert(pass_steps(pass, env@, result@, i as int, left as nat) == Some(result@));
                return Some(result);
            },
            ScanStep::Skip(j) => {
                i = j;
            },
            ScanStep::Replace(t) => {
                if left == 0 {
                    return None;
                }
                result = t;
                i = 0;
                left = left - 1;
            },
        }
    }
}

/// Whether Windows-style expansion of `path` ends.
pub open spec fn windows_ends(env: Seq<(Seq<char>, Seq<char>)>, path: Seq<char>) -> bool {
    pass_ends(ExpansionPass::Percent, env, path)
}

/// The result of expanding Windows-style variables in `path`.
pub open spec fn windows_expansion(env: Seq<(Seq<char>, Seq<char>)>, path: Seq<char>) -> Seq<char> {
    pass_result(ExpansionPass::Percent, env, path)
}

/// Expands Windows-style `%NAME%` variables in `path` from `env`.
///
/// A name that is not set is left in place, and so is an unclosed `%`.  A
/// set name is replaced and the scan starts over, so the expansion ends
/// only where the values it brings in do not keep it going.
pub fn parse_windows_env_vars(path: &str, env: &Environment) -> (r: String)
    requires
        windows_ends(env@, path@),
    ensures
        r@ == windows_expansion(env@, path@),
{
    let result = run_pass(ExpansionPass::Percent, env, chars_of(path));
    string_of(&result)
}

/// Whether Unix-style expansion of `path` ends: the `${NAME}` pass, and then
/// the `$NAME` pass over what it left.
pub open spec fn unix_ends(env: Seq<(Seq<char>, Seq<char>)>, path: Seq<char>) -> bool {
    &&& pass_ends(ExpansionPass::Braces, env, path)
    &&& pass_ends(ExpansionPass::Dollar, env, unix_braces(env, path))
}

/// The text the `${NAME}` pass leaves of `path`.
pub open spec fn unix_braces(env: Seq<(Seq<char>, Seq<char>)>, path: Seq<char>) -> Seq<char> {
    pass_result(ExpansionPass::Braces, env, path)
}

/// The result of expanding Unix-style variables in `path`: `${NAME}` first, then `$NAME`.
pub open spec fn unix_expansion(env: Seq<(Seq<char>, Seq<char>)>, path: Seq<char>) -> Seq<char> {
    pass_result(ExpansionPass::Dollar, env, unix_braces(env, path))
}

/// Expands Unix-style `${NAME}` and `$NAME` variables in `path` from `env`.
///
/// An unset `${NAME}` is removed; an unset `$NAME` is left in place.  Each
/// replacement starts its pass over, so the expansion ends only where the
/// values it brings in do not keep it going.
pub fn parse_unix_env_vars(path: &str, env: &Environment) -> (r: String)
    requires
        unix_ends(env@, path@),
    ensures
        r@ == unix_expansion(env@, path@),
{
    let braced = run_pass(ExpansionPass::Braces, env, chars_of(path));
    let result = run_pass(ExpansionPass::Dollar, env, braced);
    string_of(&result)
}

/// Whether both Unix-style passes over `path` end within `budget`
/// replacements each.
pub open spec fn unix_within(env: Seq<(Seq<char>, Seq<char>)>, path: Seq<char>, budget: nat) -> bool {
    &&& pass_steps(ExpansionPass::Braces, env, path, 0, budget) is Some
    &&& pass_steps(ExpansionPass::Dollar, env, unix_braces(env, path), 0, budget) is Some
}

/// Unix-style expansion of `path` where both passes end within `budget`
/// replacements each, as `parse_unix_env_vars` gives it; `None` otherwise.
pub fn unix_expansion_within(path: &str, env: &Environment, budget: u64) -> (r: Option<String>)
    ensures
        r is Some == unix_within(env@, path@, budget as nat),
        r matches Some(t) ==> unix_ends(env@, path@) && t@ == unix_expansion(env@, path@),
{
    let v = chars_of(path);
    let braced = match run_pass_within(ExpansionPass::Braces, env, &v, budget) {
        Some(t) => {
            proof {
                lemma_pass_result(ExpansionPass::Braces, env@, path@, budget as nat);
            }
            t
        },
        None => {
            return None;
        },
    };
    match run_pass_within(ExpansionPass::Dollar, env, &braced, budget) {
        Some(t) => {
            proof {
                lemma_pass_result(ExpansionPass::Dollar, env@, braced@, budget as nat);
            }
            Some(string_of(&t))
        },
        None => None,
    }
}

/// Whether each pass that the expansion of a source path runs ends within
/// `budget` replacements: Windows-style where it holds `%`, then Unix-style
/// where the result holds `$`.
pub open spec fn expansion_within(env: Seq<(Seq<char>, Seq<char>)>, path: Seq<char>, budget: nat) -> bool {
    let w = if path.contains('%') { windows_expansion(env, path) } else { path };
    &&& path.contains('%') ==> pass_steps(ExpansionPass::Percent, env, path, 0, budget) is Some
    &&& w.contains('$') ==> unix_within(env, w, budget)
}

/// Whether the expansion of a source path ends.
pub open spec fn expansion_ends(env: Seq<(Seq<char>, Seq<char>)>, path: Seq<char>) -> bool {
    let w = if path.contains('%') { windows_expansion(env, path) } else { path };
    &&& path.contains('%') ==> windows_ends(env, path)
    &&& w.contains('$') ==> unix_ends(env, w)
}

/// Whether the expansion of `path` ends within `budget` replacements per
/// pass; where it does, it ends.
pub fn expansion_ends_within(path: &str, env: &Environment, budget: u64) -> (r: bool)
    ensures
        r == expansion_within(env@, path@, budget as nat),
        r ==> expansion_ends(env@, path@),
{
    let v = chars_of(path);
    let w = if contains_char_exec(&v, '%') {
        match run_pass_within(ExpansionPass::Percent, env, &v, budget) {
            Some(t) => {
                proof {
                    lemma_pass_result(ExpansionPass::Percent, env@, path@, budget as nat);
                }
                t
            },
            None => {
                return false;
            },
        }
    } else {
        v
    };
    if !contains_char_exec(&w, '$') {
        return true;
    }
    let text = string_of(&w);
    unix_expansion_within(text.as_str(), env, budget).is_some()
}

/// The first occurrence of `pat` in `v`.
fn find_sub_from_exec(v: &Vec<char>, pat: &Vec<char>) -> (r: Option<usize>)
    ensures
        r matches Some(i) ==> find_sub(v@, pat@, 0) == Some(i as int),
        r is None ==> find_sub(v@, pat@, 0) is None,
{
    crate::text::find_sub_from(v, pat, 0)
}

/// Normalizes path separators for a platform whose separator is `sep`:
/// with `\` every `/` becomes `\`, otherwise every `\` becomes `/`.
pub open spec fn normalized_for(path: Seq<char>, sep: char) -> Seq<char> {
    if sep == '\\' {
        crate::text::replace_char(path, '/', '\\')
    } else {
        crate::text::replace_char(path, '\\', '/')
    }
}

/// The path separator of the platform this program was built for.
///
/// Calls `std::path::MAIN_SEPARATOR`, documented as `\` on Windows and `/` on Unix.
#[verifier::external_body]
pub(crate) fn platform_separator() -> (c: char)
    ensures
        c == '/' || c == '\\',
{
    std::path::MAIN_SEPARATOR
}

/// Normalizes the separators of `path` for a platform whose separator is `sep`.
pub fn normalize_path_for_separator(path: &str, sep: char) -> (r: String)
    ensures
        r@ == normalized_for(path@, sep),
{
    let v = chars_of(path);
    let w = if sep == '\\' {
        crate::text::replace_char_exec(&v, '/', '\\')
    } else {
        crate::text::replace_char_exec(&v, '\\', '/')
    };
    string_of(&w)
}

/// Normalizes path separators for the current platform: backslashes on
/// Windows, forward slashes elsewhere.
pub fn normalize_path_for_os(path: &str) -> (r: String)
    ensures
        r@ == normalized_for(path@, '/') || r@ == normalized_for(path@, '\\'),
{
    let sep = platform_separator();
    normalize_path_for_separator(path, sep)
}

} // verus!
