//! Path normalization.
//!
//! A path is text whose components are separated by `/`. Cleaning a path
//! removes empty components and `.` components, lets a `..` component cancel
//! the component before it, drops `..` at the start of a rooted path and keeps
//! it at the start of a relative one.

use vstd::prelude::*;
use crate::text::{chars_of, push_chars, views};

verus! {

/// The component `.`.
pub open spec fn dot() -> Seq<char> {
    seq!['.']
}

/// The component `..`.
pub open spec fn dotdot() -> Seq<char> {
    seq!['.', '.']
}

/// Whether the path starts at the root.
pub open spec fn is_rooted(p: Seq<char>) -> bool {
    p.len() > 0 && p[0] == '/'
}

/// The pieces of `s` between its `/` characters; never empty.
pub open spec fn split(s: Seq<char>) -> Seq<Seq<char>>
    decreases s.len(),
{
    if s.len() == 0 {
        seq![Seq::<char>::empty()]
    } else {
        let rest = split(s.drop_last());
        if s.last() == '/' {
            rest.push(Seq::<char>::empty())
        } else {
            rest.drop_last().push(rest.last().push(s.last()))
        }
    }
}

/// The kept components after one more component has been read.
pub open spec fn step(stack: Seq<Seq<char>>, comp: Seq<char>, rooted: bool) -> Seq<Seq<char>> {
    if comp.len() == 0 || comp == dot() {
        stack
    } else if comp == dotdot() {
        if stack.len() > 0 && stack.last() != dotdot() {
            stack.drop_last()
        } else if rooted {
            stack
        } else {
            stack.push(comp)
        }
    } else {
        stack.push(comp)
    }
}

/// The components that remain of `comps` once `.`, `..` and empty components
/// have been resolved from left to right.
pub open spec fn resolve(comps: Seq<Seq<char>>, rooted: bool) -> Seq<Seq<char>>
    decreases comps.len(),
{
    if comps.len() == 0 {
        Seq::<Seq<char>>::empty()
    } else {
        step(resolve(comps.drop_last(), rooted), comps.last(), rooted)
    }
}

/// The components joined by single `/` characters.
pub open spec fn join(comps: Seq<Seq<char>>) -> Seq<char>
    decreases comps.len(),
{
    if comps.len() == 0 {
        Seq::<char>::empty()
    } else if comps.len() == 1 {
        comps[0]
    } else {
        join(comps.drop_last()) + seq!['/'] + comps.last()
    }
}

/// The text of a path with the given resolved components.
pub open spec fn render(rooted: bool, comps: Seq<Seq<char>>) -> Seq<char> {
    if rooted {
        seq!['/'] + join(comps)
    } else if comps.len() == 0 {
        dot()
    } else {
        join(comps)
    }
}

/// The normal form of a path.
pub open spec fn spec_clean(p: Seq<char>) -> Seq<char> {
    render(is_rooted(p), resolve(split(p), is_rooted(p)))
}

/// Whether no component holds a `/`.
pub open spec fn slash_free(comps: Seq<Seq<char>>) -> bool {
    forall|i: int| 0 <= i < comps.len() ==> !(#[trigger] comps[i]).contains('/')
}

/// Whether the components are those of a path in normal form: none is empty
/// or `.`, none holds `/`, and `..` stands only at the start of a relative
/// path.
pub open spec fn canonical(comps: Seq<Seq<char>>, rooted: bool) -> bool {
    forall|i: int|
        0 <= i < comps.len() ==> {
            &&& (#[trigger] comps[i]).len() > 0
            &&& !comps[i].contains('/')
            &&& comps[i] != dot()
            &&& (comps[i] == dotdot() ==> !rooted && (i == 0 || comps[i - 1] == dotdot()))
        }
}

/// Splitting gives at least one piece.
pub proof fn lemma_split_nonempty(s: Seq<char>)
    ensures
        split(s).len() >= 1,
    decreases s.len(),
{
    if s.len() > 0 {
        lemma_split_nonempty(s.drop_last());
    }
}

/// No piece of a split holds a `/`.
pub proof fn lemma_split_slash_free(s: Seq<char>)
    ensures
        slash_free(split(s)),
    decreases s.len(),
{
    if s.len() > 0 {
        let rest = split(s.drop_last());
        lemma_split_slash_free(s.drop_last());
        lemma_split_nonempty(s.drop_last());
        if s.last() == '/' {
            assert forall|i: int| 0 <= i < split(s).len() implies !(#[trigger] split(s)[i]).contains(
                '/',
            ) by {
                if i < rest.len() {
                    assert(split(s)[i] == rest[i]);
                }
            }
        } else {
            let grown = rest.last().push(s.last());
            assert forall|i: int| 0 <= i < split(s).len() implies !(#[trigger] split(s)[i]).contains(
                '/',
            ) by {
                if i < rest.len() - 1 {
                    assert(split(s)[i] == rest[i]);
                } else {
                    assert(split(s)[i] == grown);
                    assert(!rest[rest.len() - 1].contains('/'));
                    if grown.contains('/') {
                        let k = choose|k: int| 0 <= k < grown.len() && grown[k] == '/';
                        assert(k < rest.last().len());
                        assert(rest.last()[k] == '/');
                        assert(rest.last().contains('/'));
                    }
                }
            }
        }
    }
}

/// Taking a component without `/` into components in normal form leaves
/// components in normal form.
proof fn lemma_step_canonical(stack: Seq<Seq<char>>, comp: Seq<char>, rooted: bool)
    requires
        canonical(stack, rooted),
        !comp.contains('/'),
    ensures
        canonical(step(stack, comp, rooted), rooted),
{
    let out = step(stack, comp, rooted);
    assert forall|i: int| 0 <= i < out.len() implies {
        &&& (#[trigger] out[i]).len() > 0
        &&& !out[i].contains('/')
        &&& out[i] != dot()
        &&& (out[i] == dotdot() ==> !rooted && (i == 0 || out[i - 1] == dotdot()))
    } by {
        if i < stack.len() {
            assert(out[i] == stack[i]);
            if i > 0 {
                assert(out[i - 1] == stack[i - 1]);
            }
        }
    }
}

/// Resolving slash-free components leaves components in normal form.
pub proof fn lemma_resolve_canonical(comps: Seq<Seq<char>>, rooted: bool)
    requires
        slash_free(comps),
    ensures
        canonical(resolve(comps, rooted), rooted),
    decreases comps.len(),
{
    if comps.len() > 0 {
        assert forall|i: int| 0 <= i < comps.drop_last().len() implies !(
        #[trigger] comps.drop_last()[i]).contains('/') by {
            assert(comps.drop_last()[i] == comps[i]);
        }
        lemma_resolve_canonical(comps.drop_last(), rooted);
        assert(!comps[comps.len() - 1].contains('/'));
        lemma_step_canonical(resolve(comps.drop_last(), rooted), comps.last(), rooted);
    }
}

/// Components in normal form resolve to themselves.
pub proof fn lemma_resolve_fixed(comps: Seq<Seq<char>>, rooted: bool)
    requires
        canonical(comps, rooted),
    ensures
        resolve(comps, rooted) == comps,
    decreases comps.len(),
{
    if comps.len() > 0 {
        let init = comps.drop_last();
        assert forall|i: int| 0 <= i < init.len() implies {
            &&& (#[trigger] init[i]).len() > 0
            &&& !init[i].contains('/')
            &&& init[i] != dot()
            &&& (init[i] == dotdot() ==> !rooted && (i == 0 || init[i - 1] == dotdot()))
        } by {
            assert(init[i] == comps[i]);
            if i > 0 {
                assert(init[i - 1] == comps[i - 1]);
            }
        }
        lemma_resolve_fixed(init, rooted);
        let last = comps[comps.len() - 1];
        assert(last.len() > 0 && last != dot());
        if last == dotdot() {
            if init.len() > 0 {
                assert(init.last() == comps[comps.len() - 2]);
            }
        }
        assert(step(init, last, rooted) == init.push(last));
        assert(init.push(last) =~= comps);
    }
}

/// Plain text appended to `a` grows the last piece of `a`.
proof fn lemma_split_append_plain(a: Seq<char>, b: Seq<char>)
    requires
        !b.contains('/'),
    ensures
        split(a + b) == split(a).drop_last().push(split(a).last() + b),
    decreases b.len(),
{
    lemma_split_nonempty(a);
    if b.len() == 0 {
        assert(a + b =~= a);
        assert(split(a).last() + b =~= split(a).last());
        assert(split(a).drop_last().push(split(a).last()) =~= split(a));
    } else {
        let b0 = b.drop_last();
        assert(!b0.contains('/')) by {
            if b0.contains('/') {
                let k = choose|k: int| 0 <= k < b0.len() && b0[k] == '/';
                assert(b[k] == '/');
            }
        }
        lemma_split_append_plain(a, b0);
        assert((a + b).drop_last() =~= a + b0);
        assert((a + b).last() == b.last());
        assert(b[b.len() - 1] != '/');
        let r = split(a + b0);
        assert(r.drop_last() =~= split(a).drop_last());
        assert(r.last().push(b.last()) =~= split(a).last() + b);
    }
}

/// A `/` appended to `a` opens a new, empty piece.
proof fn lemma_split_append_slash(a: Seq<char>)
    ensures
        split(a + seq!['/']) == split(a).push(Seq::<char>::empty()),
{
    let s = a + seq!['/'];
    assert(s.drop_last() =~= a);
    assert(s.last() == '/');
}

/// Splitting `a`, a `/` and joined components gives the pieces of `a`
/// followed by the components.
proof fn lemma_split_concat_join(a: Seq<char>, comps: Seq<Seq<char>>)
    requires
        comps.len() > 0,
        slash_free(comps),
    ensures
        split(a + seq!['/'] + join(comps)) == split(a) + comps,
    decreases comps.len(),
{
    let last = comps[comps.len() - 1];
    assert(!last.contains('/'));
    if comps.len() == 1 {
        lemma_split_append_slash(a);
        lemma_split_append_plain(a + seq!['/'], last);
        let r = split(a + seq!['/']);
        assert(r.drop_last() =~= split(a));
        assert(r.last() + last =~= last);
        assert(split(a).push(last) =~= split(a) + comps);
    } else {
        let init = comps.drop_last();
        assert forall|i: int| 0 <= i < init.len() implies !(#[trigger] init[i]).contains('/') by {
            assert(init[i] == comps[i]);
        }
        lemma_split_concat_join(a, init);
        let head = a + seq!['/'] + join(init);
        lemma_split_append_slash(head);
        lemma_split_append_plain(head + seq!['/'], last);
        assert(a + seq!['/'] + join(comps) =~= head + seq!['/'] + last);
        let r = split(head + seq!['/']);
        assert(r.drop_last() =~= split(a) + init);
        assert(r.last() + last =~= last);
        assert((split(a) + init).push(last) =~= split(a) + comps);
    }
}

/// Splitting joined components gives the components back.
proof fn lemma_split_join(comps: Seq<Seq<char>>)
    requires
        comps.len() > 0,
        slash_free(comps),
    ensures
        split(join(comps)) == comps,
    decreases comps.len(),
{
    let last = comps[comps.len() - 1];
    assert(!last.contains('/'));
    let none = Seq::<char>::empty();
    if comps.len() == 1 {
        lemma_split_append_plain(none, last);
        assert(none + last =~= last);
        assert(split(none) =~= seq![none]);
        assert(split(none).drop_last().push(split(none).last() + last) =~= comps);
    } else {
        let init = comps.drop_last();
        assert forall|i: int| 0 <= i < init.len() implies !(#[trigger] init[i]).contains('/') by {
            assert(init[i] == comps[i]);
        }
        lemma_split_join(init);
        let head = join(init);
        lemma_split_append_slash(head);
        lemma_split_append_plain(head + seq!['/'], last);
        let r = split(head + seq!['/']);
        assert(r.drop_last() =~= init);
        assert(r.last() + last =~= last);
        assert(init.push(last) =~= comps);
    }
}

/// An empty component in front does not change what the components resolve
/// to.
proof fn lemma_resolve_leading_empty(comps: Seq<Seq<char>>, rooted: bool)
    ensures
        resolve(seq![Seq::<char>::empty()] + comps, rooted) == resolve(comps, rooted),
    decreases comps.len(),
{
    let lead = seq![Seq::<char>::empty()];
    if comps.len() == 0 {
        assert(lead + comps =~= lead);
        assert(lead.drop_last() =~= Seq::<Seq<char>>::empty());
        assert(resolve(lead.drop_last(), rooted) =~= Seq::<Seq<char>>::empty());
    } else {
        lemma_resolve_leading_empty(comps.drop_last(), rooted);
        assert((lead + comps).drop_last() =~= lead + comps.drop_last());
        assert((lead + comps).last() == comps.last());
    }
}

/// Joined components in normal form start with the first character of the
/// first component.
proof fn lemma_join_first(comps: Seq<Seq<char>>)
    requires
        comps.len() > 0,
        comps[0].len() > 0,
    ensures
        join(comps).len() > 0,
        join(comps)[0] == comps[0][0],
    decreases comps.len(),
{
    if comps.len() > 1 {
        lemma_join_first(comps.drop_last());
        assert(comps.drop_last()[0] == comps[0]);
    }
}

/// Path normalization is idempotent: a path in normal form is its own
/// normal form.
pub proof fn lemma_clean_idempotent(p: Seq<char>)
    ensures
        spec_clean(spec_clean(p)) == spec_clean(p),
{
    let rooted = is_rooted(p);
    let comps = resolve(split(p), rooted);
    let q = spec_clean(p);
    let none = Seq::<char>::empty();
    lemma_split_slash_free(p);
    lemma_resolve_canonical(split(p), rooted);
    lemma_resolve_fixed(comps, rooted);
    assert(slash_free(comps));
    if rooted {
        assert(q == seq!['/'] + join(comps));
        assert(q[0] == '/');
        assert(is_rooted(q));
        if comps.len() == 0 {
            assert(q =~= none + seq!['/']);
            lemma_split_append_slash(none);
            assert(split(none) =~= seq![none]);
            assert(split(q) =~= seq![none] + seq![none]);
            lemma_resolve_leading_empty(seq![none], rooted);
            assert(seq![none].drop_last() =~= Seq::<Seq<char>>::empty());
            assert(resolve(seq![none], rooted) =~= Seq::<Seq<char>>::empty());
            assert(resolve(split(q), rooted) =~= comps);
        } else {
            lemma_split_concat_join(none, comps);
            assert(none + seq!['/'] + join(comps) =~= q);
            assert(split(none) =~= seq![none]);
            lemma_resolve_leading_empty(comps, rooted);
        }
    } else if comps.len() == 0 {
        assert(q == dot());
        assert(!is_rooted(q));
        assert(q.drop_last() =~= none);
        assert(split(none) =~= seq![none]);
        assert(split(q) =~= seq![dot()]);
        assert(split(q).drop_last() =~= Seq::<Seq<char>>::empty());
        assert(resolve(split(q), false) =~= Seq::<Seq<char>>::empty());
    } else {
        assert(comps[0].len() > 0 && !comps[0].contains('/'));
        lemma_join_first(comps);
        assert(comps[0][0] != '/');
        assert(!is_rooted(q));
        lemma_split_join(comps);
    }
}

/// Whether the characters spell `.`.
fn is_dot(comp: &Vec<char>) -> (r: bool)
    ensures
        r == (comp@ == dot()),
{
    let r = comp.len() == 1 && comp[0] == '.';
    proof {
        if r {
            assert(comp@ =~= dot());
        }
    }
    r
}

/// Whether the characters spell `..`.
fn is_dotdot(comp: &Vec<char>) -> (r: bool)
    ensures
        r == (comp@ == dotdot()),
{
    let r = comp.len() == 2 && comp[0] == '.' && comp[1] == '.';
    proof {
        if r {
            assert(comp@ =~= dotdot());
        }
    }
    r
}

/// Takes one more component into the kept components.
fn push_component(stack: &mut Vec<Vec<char>>, comp: Vec<char>, rooted: bool)
    ensures
        views(final(stack)@) == step(views(old(stack)@), comp@, rooted),
{
    if comp.len() == 0 || is_dot(&comp) {
        return ;
    }
    if is_dotdot(&comp) {
        let n = stack.len();
        if n > 0 && !is_dotdot(&stack[n - 1]) {
            stack.pop();
            assert(views(stack@) =~= views(old(stack)@).drop_last());
        } else if !rooted {
            stack.push(comp);
            assert(views(stack@) =~= views(old(stack)@).push(comp@));
        }
    } else {
        stack.push(comp);
        assert(views(stack@) =~= views(old(stack)@).push(comp@));
    }
}

/// Writes the resolved components out as a path.
fn render_path(rooted: bool, stack: &Vec<Vec<char>>) -> (r: String)
    ensures
        r@ == render(rooted, views(stack@)),
{
    let mut out = String::new();
    if rooted {
        out.push('/');
    } else if stack.len() == 0 {
        out.push('.');
        assert(out@ =~= dot());
        return out;
    }
    let ghost lead = out@;
    let mut k: usize = 0;
    while k < stack.len()
        invariant
            k <= stack.len(),
            out@ == lead + join(views(stack@).take(k as int)),
        decreases stack.len() - k,
    {
        let ghost before = views(stack@).take(k as int);
        let ghost after = views(stack@).take(k + 1);
        assert(after.drop_last() =~= before);
        assert(after.last() == stack@[k as int]@);
        if k > 0 {
            out.push('/');
        }
        push_chars(&mut out, &stack[k]);
        assert(out@ =~= lead + join(after));
        k += 1;
    }
    assert(views(stack@).take(stack.len() as int) =~= views(stack@));
    assert(lead + join(views(stack@)) =~= render(rooted, views(stack@)));
    out
}

/// The pieces of the text between its `/` characters.
pub fn split_chars(chars: &Vec<char>) -> (r: Vec<Vec<char>>)
    ensures
        views(r@) == split(chars@),
{
    let mut done: Vec<Vec<char>> = Vec::new();
    let mut cur: Vec<char> = Vec::new();
    let mut i: usize = 0;
    assert(chars@.take(0) =~= Seq::<char>::empty());
    assert(views(done@) =~= split(chars@.take(0)).drop_last());
    while i < chars.len()
        invariant
            i <= chars.len(),
            views(done@) == split(chars@.take(i as int)).drop_last(),
            cur@ == split(chars@.take(i as int)).last(),
        decreases chars.len() - i,
    {
        let c = chars[i];
        proof {
            let s = chars@.take(i + 1);
            assert(s.drop_last() =~= chars@.take(i as int));
            assert(s.last() == c);
            lemma_split_nonempty(chars@.take(i as int));
            let rest = split(chars@.take(i as int));
            if c == '/' {
                assert(split(s).drop_last() =~= rest);
                assert(rest =~= rest.drop_last().push(rest.last()));
            } else {
                assert(split(s).drop_last() =~= rest.drop_last());
            }
        }
        if c == '/' {
            let ghost before = views(done@);
            done.push(cur);
            assert(views(done@) =~= before.push(cur@));
            cur = Vec::new();
        } else {
            cur.push(c);
        }
        i += 1;
    }
    proof {
        assert(chars@.take(chars.len() as int) =~= chars@);
        lemma_split_nonempty(chars@);
        let all = split(chars@);
        assert(all =~= all.drop_last().push(all.last()));
    }
    let ghost before = views(done@);
    done.push(cur);
    assert(views(done@) =~= before.push(cur@));
    done
}

/// Brings a path into its normal form.
pub fn clean(path: &str) -> (r: String)
    ensures
        r@ == spec_clean(path@),
{
    let chars = chars_of(path);
    let rooted = chars.len() > 0 && chars[0] == '/';
    let mut stack: Vec<Vec<char>> = Vec::new();
    let mut cur: Vec<char> = Vec::new();
    let mut i: usize = 0;
    assert(chars@.take(0) =~= Seq::<char>::empty());
    assert(split(chars@.take(0)).drop_last() =~= Seq::<Seq<char>>::empty());
    assert(views(stack@) =~= Seq::<Seq<char>>::empty());
    while i < chars.len()
        invariant
            i <= chars.len(),
            views(stack@) == resolve(split(chars@.take(i as int)).drop_last(), rooted),
            cur@ == split(chars@.take(i as int)).last(),
        decreases chars.len() - i,
    {
        let c = chars[i];
        proof {
            let s = chars@.take(i + 1);
            assert(s.drop_last() =~= chars@.take(i as int));
            assert(s.last() == c);
            lemma_split_nonempty(chars@.take(i as int));
            let rest = split(chars@.take(i as int));
            if c == '/' {
                assert(split(s).drop_last() =~= rest);
            } else {
                assert(split(s).drop_last() =~= rest.drop_last());
            }
        }
        if c == '/' {
            push_component(&mut stack, cur, rooted);
            cur = Vec::new();
        } else {
            cur.push(c);
        }
        i += 1;
    }
    proof {
        assert(chars@.take(chars.len() as int) =~= chars@);
        lemma_split_nonempty(chars@);
    }
    push_component(&mut stack, cur, rooted);
    render_path(rooted, &stack)
}

} // verus!
