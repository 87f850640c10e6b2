//! Validated, normalized relative paths.
//!
//! A `SafePath` holds the text of a path with `/` separators. Normalization
//! works component by component, as `std::path::Path::components` splits a path
//! on Unix: empty components and `.` are dropped, `..` removes the previous
//! component, anything else is kept.

use std::path::{Path, PathBuf};
use vstd::prelude::*;
use vstd::string::*;
use crate::error::ModelError;
use crate::text::{chars_of, string_from_chars};

verus! {

#[verifier::external_type_specification]
#[verifier::external_body]
pub struct ExPath(Path);

#[verifier::external_type_specification]
#[verifier::external_body]
pub struct ExPathBuf(PathBuf);

/// A normalized path that does not escape its root.
#[derive(Debug, Clone, PartialEq, Eq, PartialOrd, Ord, Hash)]
pub struct SafePath(String);

impl View for SafePath {
    type V = Seq<char>;

    closed spec fn view(&self) -> Seq<char> {
        self.0@
    }
}

/// Error kinds of path validation.
#[derive(Debug, Clone, Copy, PartialEq, Eq, Structural)]
pub enum PathError {
    /// The path is absolute, which is not allowed.
    Absolute,
    /// The path contains invalid prefix or root components.
    InvalidPrefix,
    /// The path attempts to traverse above the root directory.
    Traversal,
}

impl PathError {
    /// The human-readable message of the error.
    pub fn message(&self) -> (r: &'static str)
        ensures
            r@ == (match *self {
                PathError::Absolute => "Path is absolute"@,
                PathError::InvalidPrefix => "Path contains invalid root/prefix components"@,
                PathError::Traversal => "Path attempts to traverse above root"@,
            }),
    {
        match self {
            PathError::Absolute => "Path is absolute",
            PathError::InvalidPrefix => "Path contains invalid root/prefix components",
            PathError::Traversal => "Path attempts to traverse above root",
        }
    }
}

/// State of a left-to-right scan: the kept components, the component being read,
/// and whether a `..` had nothing left to remove.
pub struct NormState {
    pub stack: Seq<Seq<char>>,
    pub cur: Seq<char>,
    pub failed: bool,
}

/// The character sequences of a list of character vectors.
pub open spec fn views_of(v: Seq<Vec<char>>) -> Seq<Seq<char>> {
    v.map_values(|x: Vec<char>| x@)
}

/// Ends the component being read.
pub open spec fn flush(st: NormState) -> NormState {
    let c = st.cur;
    if c.len() == 0 || c == seq!['.'] {
        NormState { cur: Seq::empty(), ..st }
    } else if c == seq!['.', '.'] {
        if st.stack.len() == 0 {
            NormState { cur: Seq::empty(), failed: true, ..st }
        } else {
            NormState { stack: st.stack.drop_last(), cur: Seq::empty(), ..st }
        }
    } else {
        NormState { stack: st.stack.push(c), cur: Seq::empty(), ..st }
    }
}

/// Reads one character.
pub open spec fn step(st: NormState, ch: char) -> NormState {
    if ch == '/' {
        flush(st)
    } else {
        NormState { cur: st.cur.push(ch), ..st }
    }
}

/// The state after reading all of `s`.
pub open spec fn scan(s: Seq<char>) -> NormState
    decreases s.len(),
{
    if s.len() == 0 {
        NormState { stack: Seq::empty(), cur: Seq::empty(), failed: false }
    } else {
        step(scan(s.drop_last()), s.last())
    }
}

/// The components of `s` after normalization (and whether it escaped its root).
pub open spec fn normalized(s: Seq<char>) -> NormState {
    flush(scan(s))
}

/// Components joined with `/`.
pub open spec fn join_parts(parts: Seq<Seq<char>>) -> Seq<char>
    decreases parts.len(),
{
    if parts.len() == 0 {
        Seq::empty()
    } else if parts.len() == 1 {
        parts[0]
    } else {
        join_parts(parts.drop_last()) + seq!['/'] + parts.last()
    }
}

/// The text of normalized components: rooted at `/` for an absolute path, `.` when empty.
pub open spec fn render(parts: Seq<Seq<char>>, absolute: bool) -> Seq<char> {
    let t = if absolute { seq!['/'] + join_parts(parts) } else { join_parts(parts) };
    if t.len() == 0 {
        seq!['.']
    } else {
        t
    }
}

/// The path text `s` has a root (is absolute on Unix).
pub open spec fn has_root(s: Seq<char>) -> bool {
    s.len() > 0 && s[0] == '/'
}

/// `PathBuf::push`: an absolute `rel` replaces `base`; otherwise `rel` is appended,
/// with a `/` in between unless `base` is empty or already ends with one.
pub open spec fn push_spec(base: Seq<char>, rel: Seq<char>) -> Seq<char> {
    if has_root(rel) {
        rel
    } else if base.len() > 0 && base.last() != '/' {
        base + seq!['/'] + rel
    } else {
        base + rel
    }
}

/// The result of validating `s` as a relative path: its normalized text, or the message.
pub open spec fn safe_path_spec(s: Seq<char>) -> Result<Seq<char>, Seq<char>> {
    if has_root(s) {
        Err("Path '"@ + s + "' is absolute"@)
    } else if normalized(s).failed {
        Err("Path '"@ + s + "' attempts to traverse above root"@)
    } else {
        Ok(render(normalized(s).stack, false))
    }
}

/// The result of joining `rel` onto the path `base`. A rooted `rel` is refused. Onto a
/// rooted base (a trusted root) the two are normalized apart, so that `..` in `rel`
/// cannot climb into or above the root's own components; onto a relative base the
/// joined text is normalized as a whole, and may not climb above its start.
pub open spec fn join_spec(base: Seq<char>, rel: Seq<char>) -> Result<Seq<char>, Seq<char>> {
    let combined = push_spec(base, rel);
    if has_root(rel) {
        Err("Path '"@ + combined + "' contains invalid root/prefix components"@)
    } else if has_root(base) {
        if normalized(base).failed || normalized(rel).failed {
            Err("Path '"@ + combined + "' attempts to traverse above root"@)
        } else {
            Ok(render(normalized(base).stack + normalized(rel).stack, true))
        }
    } else if normalized(combined).failed {
        Err("Path '"@ + combined + "' attempts to traverse above root"@)
    } else {
        Ok(render(normalized(combined).stack, false))
    }
}

/// Ends the component being read (`flush` on the exec state).
fn flush_exec(stack: &mut Vec<Vec<char>>, cur: &mut Vec<char>, failed: &mut bool)
    ensures
        ({
            let st = flush(NormState { stack: views_of(old(stack)@), cur: old(cur)@, failed: *old(failed) });
            &&& views_of(final(stack)@) == st.stack
            &&& final(cur)@ == st.cur
            &&& *final(failed) == st.failed
        }),
{
    let is_dot = cur.len() == 1 && cur[0] == '.';
    let is_dotdot = cur.len() == 2 && cur[0] == '.' && cur[1] == '.';
    proof {
        assert(is_dot == (cur@ == seq!['.'])) by {
            if cur@ == seq!['.'] {
                assert(cur@[0] == '.');
            }
            if is_dot {
                assert(cur@ =~= seq!['.']);
            }
        }
        assert(is_dotdot == (cur@ == seq!['.', '.'])) by {
            if cur@ == seq!['.', '.'] {
                assert(cur@[0] == '.' && cur@[1] == '.');
            }
            if is_dotdot {
                assert(cur@ =~= seq!['.', '.']);
            }
        }
    }
    let ghost old_stack = stack@;
    if cur.len() == 0 || is_dot {
    } else if is_dotdot {
        if stack.len() == 0 {
            *failed = true;
        } else {
            stack.pop();
            proof {
                assert(views_of(stack@) =~= views_of(old_stack).drop_last());
            }
        }
    } else {
        let piece = cur.clone();
        stack.push(piece);
        proof {
            assert(views_of(stack@) =~= views_of(old_stack).push(cur@));
        }
    }
    *cur = Vec::new();
}

/// A component as normalization keeps it: non-empty, without `/`, and neither `.` nor `..`.
pub open spec fn proper_part(p: Seq<char>) -> bool {
    p.len() > 0 && !p.contains('/') && p != seq!['.'] && p != seq!['.', '.']
}

/// Every component is proper.
pub open spec fn all_proper(parts: Seq<Seq<char>>) -> bool {
    forall|k: int| 0 <= k < parts.len() ==> proper_part(#[trigger] parts[k])
}

proof fn lemma_flush_proper(st: NormState)
    requires
        all_proper(st.stack),
        !st.cur.contains('/'),
    ensures
        all_proper(flush(st).stack),
        flush(st).cur.len() == 0,
{
    let c = st.cur;
    if !(c.len() == 0 || c == seq!['.']) && c == seq!['.', '.'] && st.stack.len() > 0 {
        assert forall|k: int| 0 <= k < st.stack.drop_last().len() implies proper_part(#[trigger] st.stack.drop_last()[k]) by {
            assert(st.stack.drop_last()[k] == st.stack[k]);
        }
    }
    if !(c.len() == 0 || c == seq!['.']) && c != seq!['.', '.'] {
        assert forall|k: int| 0 <= k < st.stack.push(c).len() implies proper_part(#[trigger] st.stack.push(c)[k]) by {
            if k < st.stack.len() {
                assert(st.stack.push(c)[k] == st.stack[k]);
            }
        }
    }
}

proof fn lemma_scan_proper(s: Seq<char>)
    ensures
        all_proper(scan(s).stack),
        !scan(s).cur.contains('/'),
    decreases s.len(),
{
    if s.len() > 0 {
        lemma_scan_proper(s.drop_last());
        let st = scan(s.drop_last());
        if s.last() == '/' {
            lemma_flush_proper(st);
        } else {
            assert(!st.cur.push(s.last()).contains('/')) by {
                if st.cur.push(s.last()).contains('/') {
                    let k = choose|k: int| 0 <= k < st.cur.push(s.last()).len() && st.cur.push(s.last())[k] == '/';
                    if k < st.cur.len() {
                        assert(st.cur[k] == '/');
                    }
                }
            }
        }
    }
}

proof fn lemma_join_first(parts: Seq<Seq<char>>)
    requires
        parts.len() > 0,
        all_proper(parts),
    ensures
        join_parts(parts).len() > 0,
        join_parts(parts)[0] == parts[0][0],
    decreases parts.len(),
{
    assert(proper_part(parts[0]));
    if parts.len() > 1 {
        let p = parts.drop_last();
        assert forall|k: int| 0 <= k < p.len() implies proper_part(#[trigger] p[k]) by {
            assert(p[k] == parts[k]);
        }
        lemma_join_first(p);
        assert(p[0] == parts[0]);
    }
}

/// A validated path is relative and normal: it does not start with `/`, and it is made
/// of components that are non-empty, free of `/`, and neither `.` nor `..` (or it is `.`).
pub proof fn lemma_safe_path_is_normal(s: Seq<char>, t: Seq<char>)
    requires
        safe_path_spec(s) == Ok::<Seq<char>, Seq<char>>(t),
    ensures
        !has_root(t),
        all_proper(normalized(s).stack),
        t == render(normalized(s).stack, false),
{
    lemma_scan_proper(s);
    lemma_flush_proper(scan(s));
    let parts = normalized(s).stack;
    if parts.len() > 0 {
        lemma_join_first(parts);
        assert(proper_part(parts[0]));
        assert(parts[0][0] != '/') by {
            if parts[0][0] == '/' {
                assert(parts[0].contains('/'));
            }
        }
    }
}

/// Joining onto a relative path never gives an absolute one: the result of a
/// successful join onto a path without a root has no root, and its components are
/// normal.
pub proof fn lemma_join_stays_relative(base: Seq<char>, rel: Seq<char>, t: Seq<char>)
    requires
        join_spec(base, rel) == Ok::<Seq<char>, Seq<char>>(t),
        !has_root(base),
    ensures
        !has_root(t),
        all_proper(normalized(push_spec(base, rel)).stack),
        t == render(normalized(push_spec(base, rel)).stack, false),
{
    let c = push_spec(base, rel);
    lemma_scan_proper(c);
    lemma_flush_proper(scan(c));
    let parts = normalized(c).stack;
    if parts.len() > 0 {
        lemma_join_first(parts);
        assert(proper_part(parts[0]));
        assert(parts[0][0] != '/') by {
            if parts[0][0] == '/' {
                assert(parts[0].contains('/'));
            }
        }
    }
}

/// Joining onto a trusted root never leaves it: a successful join onto a rooted base
/// keeps all of the base's normalized components, in front, followed only by normal
/// components.
pub proof fn lemma_join_within_root(base: Seq<char>, rel: Seq<char>, t: Seq<char>)
    requires
        has_root(base),
        join_spec(base, rel) == Ok::<Seq<char>, Seq<char>>(t),
    ensures
        exists|q: Seq<Seq<char>>| #![trigger all_proper(q)] all_proper(q)
            && t == render(normalized(base).stack + q, true),
{
    lemma_scan_proper(rel);
    lemma_flush_proper(scan(rel));
    let q = normalized(rel).stack;
    assert(all_proper(q));
    assert(t == render(normalized(base).stack + q, true));
}

/// Scanning text without `/` only extends the component being read.
proof fn lemma_scan_append_plain(a: Seq<char>, b: Seq<char>)
    requires
        !b.contains('/'),
    ensures
        scan(a + b).stack == scan(a).stack,
        scan(a + b).cur == scan(a).cur + b,
        scan(a + b).failed == scan(a).failed,
    decreases b.len(),
{
    if b.len() == 0 {
        assert(a + b =~= a);
        assert(scan(a).cur + b =~= scan(a).cur);
    } else {
        let b0 = b.drop_last();
        assert(!b0.contains('/')) by {
            if b0.contains('/') {
                let k = choose|k: int| 0 <= k < b0.len() && b0[k] == '/';
                assert(b[k] == '/');
            }
        }
        assert(b.last() != '/') by {
            assert(b[b.len() - 1] == b.last());
        }
        lemma_scan_append_plain(a, b0);
        assert((a + b).drop_last() =~= a + b0);
        assert((a + b).last() == b.last());
        assert(scan(a).cur + b0.push(b.last()) =~= scan(a).cur + b);
        assert(b0.push(b.last()) =~= b);
        assert((scan(a).cur + b0).push(b.last()) =~= scan(a).cur + b);
    }
}

/// Scanning the components of a normal path, joined with `/`, keeps all but the last
/// and leaves the last one being read.
proof fn lemma_scan_joined(parts: Seq<Seq<char>>)
    requires
        parts.len() > 0,
        all_proper(parts),
    ensures
        scan(join_parts(parts)).stack == parts.drop_last(),
        scan(join_parts(parts)).cur == parts.last(),
        !scan(join_parts(parts)).failed,
    decreases parts.len(),
{
    let last = parts.last();
    assert(proper_part(parts[parts.len() - 1]));
    if parts.len() == 1 {
        lemma_scan_append_plain(Seq::empty(), parts[0]);
        assert(Seq::<char>::empty() + parts[0] =~= parts[0]);
        assert(parts.drop_last() =~= Seq::<Seq<char>>::empty());
    } else {
        let init = parts.drop_last();
        assert forall|k: int| 0 <= k < init.len() implies proper_part(#[trigger] init[k]) by {
            assert(init[k] == parts[k]);
        }
        lemma_scan_joined(init);
        let j = join_parts(init);
        let js = j + seq!['/'];
        assert(js.drop_last() =~= j);
        assert(scan(js) == flush(scan(j)));
        assert(proper_part(init[init.len() - 1]));
        assert(flush(scan(j)).stack =~= init.drop_last().push(init.last()));
        assert(init.drop_last().push(init.last()) =~= init);
        lemma_scan_append_plain(js, last);
        assert(join_parts(parts) =~= js + last);
        assert(Seq::<char>::empty() + last =~= last);
    }
}

/// Normalizing a validated path gives it back unchanged.
pub proof fn lemma_safe_path_idempotent(s: Seq<char>, t: Seq<char>)
    requires
        safe_path_spec(s) == Ok::<Seq<char>, Seq<char>>(t),
    ensures
        safe_path_spec(t) == Ok::<Seq<char>, Seq<char>>(t),
{
    lemma_safe_path_is_normal(s, t);
    let parts = normalized(s).stack;
    if parts.len() == 0 {
        assert(join_parts(parts).len() == 0);
        assert(t =~= seq!['.']);
        lemma_scan_append_plain(Seq::empty(), seq!['.']);
        assert(Seq::<char>::empty() + seq!['.'] =~= seq!['.']);
        assert(normalized(t).stack =~= Seq::<Seq<char>>::empty());
    } else {
        lemma_join_first(parts);
        assert(t == join_parts(parts));
        lemma_scan_joined(parts);
        assert(proper_part(parts[parts.len() - 1]));
        assert(normalized(t).stack =~= parts.drop_last().push(parts.last()));
        assert(parts.drop_last().push(parts.last()) =~= parts);
    }
}

/// The components of `s` kept by normalization; reports escaping above the start.
fn scan_parts(s: &[char]) -> (r: (bool, Vec<Vec<char>>))
    ensures
        r.0 == normalized(s@).failed,
        views_of(r.1@) == normalized(s@).stack,
{
    let mut stack: Vec<Vec<char>> = Vec::new();
    let mut cur: Vec<char> = Vec::new();
    let mut failed = false;
    let mut i: usize = 0;
    assert(s@.take(0) =~= Seq::<char>::empty());
    assert(views_of(stack@) =~= Seq::<Seq<char>>::empty());
    while i < s.len()
        invariant
            i <= s@.len(),
            scan(s@.take(i as int)).cur == cur@,
            scan(s@.take(i as int)).failed == failed,
            scan(s@.take(i as int)).stack == views_of(stack@),
        decreases s.len() - i,
    {
        if s[i] == '/' {
            flush_exec(&mut stack, &mut cur, &mut failed);
        } else {
            cur.push(s[i]);
        }
        proof {
            assert(s@.take(i + 1).drop_last() =~= s@.take(i as int));
            assert(s@.take(i + 1).last() == s@[i as int]);
        }
        i += 1;
    }
    assert(s@.take(s@.len() as int) =~= s@);
    flush_exec(&mut stack, &mut cur, &mut failed);
    (failed, stack)
}

/// The text of components: rooted at `/` when `absolute`, `.` when empty.
fn render_parts(stack: &Vec<Vec<char>>, absolute: bool) -> (r: Vec<char>)
    ensures
        r@ == render(views_of(stack@), absolute),
{
    let ghost parts = views_of(stack@);
    let mut out: Vec<char> = Vec::new();
    if absolute {
        out.push('/');
    }
    let ghost prefix: Seq<char> = if absolute { seq!['/'] } else { Seq::empty() };
    let mut k: usize = 0;
    assert(parts.take(0) =~= Seq::<Seq<char>>::empty());
    assert(out@ =~= prefix + join_parts(parts.take(0)));
    while k < stack.len()
        invariant
            k <= stack@.len(),
            parts == views_of(stack@),
            prefix == (if absolute { seq!['/'] } else { Seq::<char>::empty() }),
            out@ == prefix + join_parts(parts.take(k as int)),
        decreases stack.len() - k,
    {
        let ghost before = out@;
        if k > 0 {
            out.push('/');
        }
        let piece = &stack[k];
        let mut q: usize = 0;
        let ghost mid = out@;
        while q < piece.len()
            invariant
                q <= piece@.len(),
                out@ == mid + piece@.take(q as int),
            decreases piece.len() - q,
        {
            out.push(piece[q]);
            q += 1;
            assert(out@ =~= mid + piece@.take(q as int));
        }
        proof {
            assert(piece@.take(piece@.len() as int) =~= piece@);
            assert(parts[k as int] == piece@);
            let pk1 = parts.take(k + 1);
            if k == 0 {
                assert(pk1.len() == 1);
                assert(out@ =~= prefix + join_parts(pk1));
            } else {
                assert(pk1.drop_last() =~= parts.take(k as int));
                assert(pk1.last() == piece@);
                assert(out@ =~= prefix + join_parts(pk1));
            }
        }
        k += 1;
    }
    assert(parts.take(stack@.len() as int) =~= parts);
    if out.len() == 0 {
        out.push('.');
        assert(out@ =~= seq!['.']);
    }
    out
}


/// The components of `s` kept by normalization, rendered; reports escaping above the root.
fn normalize_chars(s: &[char], absolute: bool) -> (r: (bool, Vec<char>))
    ensures
        r.0 == normalized(s@).failed,
        !r.0 ==> r.1@ == render(normalized(s@).stack, absolute),
{
    let (failed, stack) = scan_parts(s);
    if failed {
        return (true, Vec::new());
    }
    (false, render_parts(&stack, absolute))
}

/// `prefix`, then `s`, then `suffix`, as a string.
fn quoted(prefix: &str, s: &[char], suffix: &str) -> (r: String)
    ensures
        r@ == prefix@ + s@ + suffix@,
{
    let mut m = String::from_str(prefix);
    let body = string_from_chars(s);
    m.append(body.as_str());
    m.append(suffix);
    m
}

/// The text of a `Path` as `Path::to_string_lossy` gives it (invalid UTF-8 replaced);
/// it depends on the path alone.
pub uninterp spec fn path_lossy_text(p: &Path) -> Seq<char>;

/// The text of a `PathBuf` as `Path::to_string_lossy` gives it (invalid UTF-8 replaced);
/// it depends on the path alone.
pub uninterp spec fn path_buf_lossy_text(p: PathBuf) -> Seq<char>;

/// `Path::to_string_lossy`, owned; its text is named by `path_lossy_text`.
#[verifier::external_body]
fn path_text(p: &Path) -> (r: String)
    ensures
        r@ == path_lossy_text(p),
{
    p.to_string_lossy().into_owned()
}

/// `Path::new` on a string: a path whose lossy text is the string itself, since a
/// string is valid UTF-8.
#[verifier::external_body]
fn path_of(s: &String) -> (r: &Path)
    ensures
        path_lossy_text(r) == s@,
{
    Path::new(s.as_str())
}

/// `PathBuf::from` on a string: a path whose lossy text is the string itself.
#[verifier::external_body]
fn path_buf_of(s: String) -> (r: PathBuf)
    ensures
        path_buf_lossy_text(r) == s@,
{
    PathBuf::from(s)
}

/// `Path::to_string_lossy` on an owned path; its text is named by `path_buf_lossy_text`.
#[verifier::external_body]
fn path_buf_text(p: PathBuf) -> (r: String)
    ensures
        r@ == path_buf_lossy_text(p),
{
    p.to_string_lossy().into_owned()
}

impl SafePath {
    /// Validates and normalizes a relative path given as text. An absolute path, or one
    /// whose `..` components climb above its start, is rejected.
    pub fn try_from_str(s: &str) -> (r: Result<Self, ModelError>)
        ensures
            match r {
                Ok(p) => safe_path_spec(s@) == Ok::<Seq<char>, Seq<char>>(p@),
                Err(e) => exists|m: String| e == ModelError::Invariant(m)
                    && safe_path_spec(s@) == Err::<Seq<char>, Seq<char>>(m@),
            },
    {
        let cs = chars_of(s);
        if cs.len() > 0 && cs[0] == '/' {
            return Err(ModelError::Invariant(quoted("Path '", &cs, "' is absolute")));
        }
        let (failed, text) = normalize_chars(&cs, false);
        if failed {
            return Err(ModelError::Invariant(quoted("Path '", &cs, "' attempts to traverse above root")));
        }
        Ok(SafePath(string_from_chars(&text)))
    }

    /// Validates the text of a `Path` (invalid UTF-8 replaced) as `try_from_str` does.
    pub fn try_from_path(p: &Path) -> (r: Result<Self, ModelError>)
        ensures
            match r {
                Ok(sp) => safe_path_spec(path_lossy_text(p)) == Ok::<Seq<char>, Seq<char>>(sp@),
                Err(e) => exists|m: String| e == ModelError::Invariant(m)
                    && safe_path_spec(path_lossy_text(p)) == Err::<Seq<char>, Seq<char>>(m@),
            },
    {
        let t = path_text(p);
        SafePath::try_from_str(t.as_str())
    }

    /// The text of the path.
    pub fn as_str(&self) -> (r: &str)
        ensures
            r@ == self@,
    {
        self.0.as_str()
    }

    /// The path as a `std::path::Path`.
    pub fn as_path(&self) -> (r: &Path)
        ensures
            path_lossy_text(r) == self@,
    {
        path_of(&self.0)
    }

    /// Consumes the `SafePath` and returns it as a `PathBuf`.
    pub fn into_inner(self) -> (r: PathBuf)
        ensures
            path_buf_lossy_text(r) == self@,
    {
        path_buf_of(self.0)
    }

    /// Declares a trusted path (such as a data directory, possibly absolute) to be a root,
    /// without validation.
    pub fn from_trusted_root_path(path: PathBuf) -> (r: Self)
        ensures
            r@ == path_buf_lossy_text(path),
    {
        SafePath(path_buf_text(path))
    }

    /// Joins `rel` onto this path and normalizes the result. A rooted `rel` is refused.
    /// When this path is rooted (a trusted root), `rel` is normalized on its own and may
    /// not climb above the root; otherwise the joined path may not climb above its start.
    pub fn join(&self, rel: &str) -> (r: Result<Self, ModelError>)
        ensures
            match r {
                Ok(p) => join_spec(self@, rel@) == Ok::<Seq<char>, Seq<char>>(p@),
                Err(e) => exists|m: String| e == ModelError::Invariant(m)
                    && join_spec(self@, rel@) == Err::<Seq<char>, Seq<char>>(m@),
            },
    {
        let base = chars_of(self.0.as_str());
        let rc = chars_of(rel);
        let combined = push_chars(&base, &rc);
        if rc.len() > 0 && rc[0] == '/' {
            return Err(ModelError::Invariant(
                quoted("Path '", &combined, "' contains invalid root/prefix components"),
            ));
        }
        if base.len() > 0 && base[0] == '/' {
            let (fb, mut parts) = scan_parts(&base);
            let (fr, rel_parts) = scan_parts(&rc);
            if fb || fr {
                return Err(ModelError::Invariant(quoted("Path '", &combined, "' attempts to traverse above root")));
            }
            let ghost base_parts = views_of(parts@);
            let mut k: usize = 0;
            while k < rel_parts.len()
                invariant
                    k <= rel_parts@.len(),
                    views_of(parts@) == base_parts + views_of(rel_parts@).take(k as int),
                decreases rel_parts.len() - k,
            {
                let ghost before = parts@;
                parts.push(rel_parts[k].clone());
                proof {
                    assert(views_of(parts@) =~= views_of(before).push(rel_parts@[k as int]@));
                    assert(views_of(rel_parts@).take(k + 1) =~= views_of(rel_parts@).take(k as int).push(rel_parts@[k as int]@));
                }
                k += 1;
            }
            assert(views_of(rel_parts@).take(rel_parts@.len() as int) =~= views_of(rel_parts@));
            let text = render_parts(&parts, true);
            return Ok(SafePath(string_from_chars(&text)));
        }
        let (failed, text) = normalize_chars(&combined, false);
        if failed {
            return Err(ModelError::Invariant(quoted("Path '", &combined, "' attempts to traverse above root")));
        }
        Ok(SafePath(string_from_chars(&text)))
    }

    /// `root` joined with `rel` (`Path::join`), trusted without validation.
    pub fn from_trusted_root(root: &Path, rel: &SafePath) -> (r: Self)
        ensures
            r@ == push_spec(path_lossy_text(root), rel@),
    {
        let base = chars_of(path_text(root).as_str());
        let rc = chars_of(rel.0.as_str());
        let r = SafePath(string_from_chars(&push_chars(&base, &rc)));
        assert(r@ == push_spec(base@, rel@));
        r
    }

    /// This path, taken as a trusted root, joined with `rel`.
    pub fn join_trusted(&self, rel: &SafePath) -> (r: Self)
        ensures
            r@ == push_spec(self@, rel@),
    {
        let base = chars_of(self.0.as_str());
        let rc = chars_of(rel.0.as_str());
        SafePath(string_from_chars(&push_chars(&base, &rc)))
    }

    /// The text of the path, as `Display` renders it.
    pub fn display_string(&self) -> (r: String)
        ensures
            r@ == self@,
    {
        self.0.clone()
    }
}

/// `PathBuf::push` on path texts.
fn push_chars(base: &[char], rel: &[char]) -> (r: Vec<char>)
    ensures
        r@ == push_spec(base@, rel@),
{
    if rel.len() > 0 && rel[0] == '/' {
        return crate::text::sub_chars(rel, 0, rel.len());
    }
    let mut out = crate::text::sub_chars(base, 0, base.len());
    if base.len() > 0 && base[base.len() - 1] != '/' {
        out.push('/');
    }
    let out = crate::text::concat_chars(&out, rel);
    proof {
        assert(base@.subrange(0, base@.len() as int) =~= base@);
        assert(rel@.subrange(0, rel@.len() as int) =~= rel@);
    }
    out
}

impl std::str::FromStr for SafePath {
    type Err = ModelError;

    /// Validates and normalizes as `try_from_str` does.
    fn from_str(s: &str) -> (r: Result<Self, ModelError>)
        ensures
            match r {
                Ok(p) => safe_path_spec(s@) == Ok::<Seq<char>, Seq<char>>(p@),
                Err(e) => exists|m: String| e == ModelError::Invariant(m)
                    && safe_path_spec(s@) == Err::<Seq<char>, Seq<char>>(m@),
            },
    {
        SafePath::try_from_str(s)
    }
}

} // verus!
