use vstd::prelude::*;
use vstd::string::StringSliceAdditionalSpecFns;

verus! {

pub const SLASH: u8 = 0x2f;
pub const BACKSLASH: u8 = 0x5c;
pub const DOT: u8 = 0x2e;
pub const COLON: u8 = 0x3a;
pub const UPPER_A: u8 = 0x41;
pub const UPPER_Z: u8 = 0x5a;
pub const LOWER_A: u8 = 0x61;
pub const LOWER_Z: u8 = 0x7a;
pub const LOWER_W: u8 = 0x77;
pub const LOWER_R: u8 = 0x72;
pub const LOWER_E: u8 = 0x65;
pub const LOWER_N: u8 = 0x6e;

/// How a module path reads before it is resolved.
#[derive(Debug, Clone, Copy, PartialEq, Eq, Structural)]
pub enum PathType {
    /// Starts at a root: a leading separator, or a drive letter on Windows.
    Absolute,
    /// Starts with `./` or `../`.
    Relative,
    /// A bare module name, left for the loader to find.
    Simple,
}

/// The separators and prefixes of the host platform.
#[derive(Debug, Clone, Copy, PartialEq, Eq, Structural)]
pub enum PathStyle {
    /// `/` separates components.
    Unix,
    /// `/` and `\` separate components, and `C:` starts an absolute path.
    Windows,
}

pub open spec fn is_separator_spec(c: u8, style: PathStyle) -> bool {
    c == SLASH || (style == PathStyle::Windows && c == BACKSLASH)
}

pub open spec fn is_ascii_alpha(c: u8) -> bool {
    (UPPER_A <= c && c <= UPPER_Z) || (LOWER_A <= c && c <= LOWER_Z)
}

pub open spec fn starts_with_drive(p: Seq<u8>) -> bool {
    p.len() >= 2 && is_ascii_alpha(p[0]) && p[1] == COLON
}

/// `p` begins with `./`.
pub open spec fn starts_current(p: Seq<u8>, style: PathStyle) -> bool {
    p.len() >= 2 && p[0] == DOT && is_separator_spec(p[1], style)
}

/// `p` begins with `../`.
pub open spec fn starts_parent(p: Seq<u8>, style: PathStyle) -> bool {
    p.len() >= 3 && p[0] == DOT && p[1] == DOT && is_separator_spec(p[2], style)
}

pub open spec fn path_type_spec(p: Seq<u8>, style: PathStyle) -> PathType {
    if style == PathStyle::Windows && starts_with_drive(p) {
        PathType::Absolute
    } else if p.len() >= 1 && is_separator_spec(p[0], style) {
        PathType::Absolute
    } else if starts_current(p, style) || starts_parent(p, style) {
        PathType::Relative
    } else {
        PathType::Simple
    }
}

/// Index of the last separator of `p`, or -1 where it has none.
pub open spec fn last_separator(p: Seq<u8>, style: PathStyle) -> int
    decreases p.len(),
{
    if p.len() == 0 {
        -1
    } else if is_separator_spec(p.last(), style) {
        p.len() - 1
    } else {
        last_separator(p.drop_last(), style)
    }
}

/// What precedes the last separator of `p`; empty where it has none.
pub open spec fn parent_dir(p: Seq<u8>, style: PathStyle) -> Seq<u8> {
    if last_separator(p, style) < 0 {
        Seq::empty()
    } else {
        p.subrange(0, last_separator(p, style))
    }
}

pub open spec fn join_path(dir: Seq<u8>, name: Seq<u8>) -> Seq<u8> {
    if dir.len() == 0 {
        name
    } else {
        dir + seq![SLASH] + name
    }
}

/// Adds the component `comp` to the canonical components `stack`: an empty
/// or `.` component adds nothing; `..` removes the last component, where
/// there is one that is not itself `..`; at the root it is dropped, and in a
/// relative path with nothing left to remove it is kept.
pub open spec fn push_component(stack: Seq<Seq<u8>>, comp: Seq<u8>, rooted: bool) -> Seq<
    Seq<u8>,
> {
    if comp.len() == 0 || comp == seq![DOT] {
        stack
    } else if comp == seq![DOT, DOT] {
        if stack.len() > 0 && stack.last() != seq![DOT, DOT] {
            stack.drop_last()
        } else if rooted {
            stack
        } else {
            stack.push(comp)
        }
    } else {
        stack.push(comp)
    }
}

/// Reads `p` from the left: the canonical components of what precedes its
/// last separator, and the component that is still open after it.
pub open spec fn scan_components(p: Seq<u8>, style: PathStyle, rooted: bool) -> (
    Seq<Seq<u8>>,
    Seq<u8>,
)
    decreases p.len(),
{
    if p.len() == 0 {
        (Seq::empty(), Seq::empty())
    } else {
        let (stack, cur) = scan_components(p.drop_last(), style, rooted);
        if is_separator_spec(p.last(), style) {
            (push_component(stack, cur, rooted), Seq::empty())
        } else {
            (stack, cur.push(p.last()))
        }
    }
}

/// The components of `p` once every `.` is dropped and every `x/..` folded.
pub open spec fn canonical_components(p: Seq<u8>, style: PathStyle, rooted: bool) -> Seq<
    Seq<u8>,
> {
    let (stack, cur) = scan_components(p, style, rooted);
    push_component(stack, cur, rooted)
}

/// The components joined with `/`.
pub open spec fn join_components(cs: Seq<Seq<u8>>) -> Seq<u8>
    decreases cs.len(),
{
    if cs.len() == 0 {
        Seq::empty()
    } else if cs.len() == 1 {
        cs[0]
    } else {
        join_components(cs.drop_last()) + seq![SLASH] + cs.last()
    }
}

pub open spec fn is_rooted(p: Seq<u8>, style: PathStyle) -> bool {
    p.len() > 0 && is_separator_spec(p[0], style)
}

/// The canonical form of `p`: no `.` or empty component, no `..` but those
/// that climb above the start of a relative path, components joined with
/// `/`, and a leading `/` where `p` starts at the root.
pub open spec fn canonical(p: Seq<u8>, style: PathStyle) -> Seq<u8> {
    let rooted = is_rooted(p, style);
    let body = join_components(canonical_components(p, style, rooted));
    if rooted {
        seq![SLASH] + body
    } else {
        body
    }
}

/// The path under which module `name`, imported from module `importer`, is
/// known: a simple or absolute name as it is, a relative one joined onto the
/// directory of the importer and made canonical.
pub open spec fn resolve_spec(name: Seq<u8>, importer: Seq<u8>, style: PathStyle) -> Seq<u8> {
    if path_type_spec(name, style) == PathType::Relative {
        canonical(join_path(parent_dir(importer, style), name), style)
    } else {
        name
    }
}

/// The components are canonical: none is empty or `.`, the `..` ones come
/// first, and a path that starts at the root has none.
pub open spec fn canonical_stack(stack: Seq<Seq<u8>>, rooted: bool) -> bool {
    &&& forall|i: int|
        0 <= i < stack.len() ==> #[trigger] stack[i].len() > 0 && stack[i] != seq![DOT]
    &&& forall|i: int, j: int|
        0 <= i < j < stack.len() && #[trigger] stack[j] == seq![DOT, DOT] ==> #[trigger] stack[i]
            == seq![DOT, DOT]
    &&& rooted ==> forall|i: int| 0 <= i < stack.len() ==> #[trigger] stack[i] != seq![DOT, DOT]
}

proof fn lemma_push_component_canonical(stack: Seq<Seq<u8>>, comp: Seq<u8>, rooted: bool)
    requires
        canonical_stack(stack, rooted),
    ensures
        canonical_stack(push_component(stack, comp, rooted), rooted),
{
    let r = push_component(stack, comp, rooted);
    if comp.len() == 0 || comp == seq![DOT] {
    } else if comp == seq![DOT, DOT] {
        if stack.len() > 0 && stack.last() != seq![DOT, DOT] {
            assert forall|i: int| 0 <= i < r.len() implies #[trigger] r[i] == stack[i] by {}
        } else if rooted {
        } else {
            assert forall|i: int, j: int|
                0 <= i < j < r.len() && #[trigger] r[j] == seq![DOT, DOT] implies #[trigger] r[i]
                == seq![DOT, DOT] by {
                if j < stack.len() {
                    assert(r[j] == stack[j] && r[i] == stack[i]);
                } else {
                    assert(r[i] == stack[i]);
                    if stack.len() > 0 {
                        assert(stack[stack.len() - 1] == seq![DOT, DOT]);
                    }
                }
            }
        }
    } else {
        assert forall|i: int, j: int|
            0 <= i < j < r.len() && #[trigger] r[j] == seq![DOT, DOT] implies #[trigger] r[i]
            == seq![DOT, DOT] by {
            assert(r[i] == stack[i]);
            if j < stack.len() {
                assert(r[j] == stack[j]);
            }
        }
    }
}

proof fn lemma_scan_canonical(p: Seq<u8>, style: PathStyle, rooted: bool)
    ensures
        canonical_stack(scan_components(p, style, rooted).0, rooted),
    decreases p.len(),
{
    if p.len() > 0 {
        lemma_scan_canonical(p.drop_last(), style, rooted);
        let (stack, cur) = scan_components(p.drop_last(), style, rooted);
        lemma_push_component_canonical(stack, cur, rooted);
    }
}

/// A canonical path holds no empty or `.` component; its `..` components
/// all come before the others, and where it starts at the root it holds none.
pub proof fn lemma_canonical_components(p: Seq<u8>, style: PathStyle)
    ensures
        canonical_stack(
            canonical_components(p, style, is_rooted(p, style)),
            is_rooted(p, style),
        ),
{
    let rooted = is_rooted(p, style);
    lemma_scan_canonical(p, style, rooted);
    let (stack, cur) = scan_components(p, style, rooted);
    lemma_push_component_canonical(stack, cur, rooted);
}

pub fn is_separator(c: u8, style: PathStyle) -> (r: bool)
    ensures
        r == is_separator_spec(c, style),
{
    if c == SLASH {
        return true;
    }
    match style {
        PathStyle::Windows => c == BACKSLASH,
        PathStyle::Unix => false,
    }
}

fn is_ascii_alphabetic(c: u8) -> (r: bool)
    ensures
        r == is_ascii_alpha(c),
{
    (UPPER_A <= c && c <= UPPER_Z) || (LOWER_A <= c && c <= LOWER_Z)
}

/// Classifies `path`.
pub fn path_type(path: &[u8], style: PathStyle) -> (r: PathType)
    ensures
        r == path_type_spec(path@, style),
{
    let len = path.len();
    if let PathStyle::Windows = style {
        if len >= 2 && is_ascii_alphabetic(path[0]) && path[1] == COLON {
            return PathType::Absolute;
        }
    }
    if len >= 1 && is_separator(path[0], style) {
        return PathType::Absolute;
    }
    if len >= 2 && path[0] == DOT && is_separator(path[1], style) {
        return PathType::Relative;
    }
    if len >= 3 && path[0] == DOT && path[1] == DOT && is_separator(path[2], style) {
        return PathType::Relative;
    }
    PathType::Simple
}

/// Finds the last separator among the first `end` bytes of `p`.
fn find_last_separator(p: &[u8], end: usize, style: PathStyle) -> (r: Option<usize>)
    requires
        end <= p@.len(),
    ensures
        r is None ==> last_separator(p@.subrange(0, end as int), style) == -1,
        r is Some ==> r.unwrap() < end && r.unwrap() as int == last_separator(
            p@.subrange(0, end as int),
            style,
        ),
{
    let mut i: usize = end;
    while i > 0
        invariant
            i <= end <= p@.len(),
            last_separator(p@.subrange(0, end as int), style) == last_separator(
                p@.subrange(0, i as int),
                style,
            ),
        decreases i,
    {
        if is_separator(p[i - 1], style) {
            return Some(i - 1);
        }
        assert(p@.subrange(0, i as int).drop_last() =~= p@.subrange(0, i - 1));
        i = i - 1;
    }
    None
}

/// Where the component after the last separator of the first `end` bytes starts.
fn component_start(p: &[u8], end: usize, style: PathStyle) -> (r: usize)
    requires
        end <= p@.len(),
    ensures
        r <= end,
        r as int == last_separator(p@.subrange(0, end as int), style) + 1,
        r > 0 ==> p@.subrange(0, r - 1) =~= parent_dir(p@.subrange(0, end as int), style),
        r == 0 ==> parent_dir(p@.subrange(0, end as int), style) =~= Seq::<u8>::empty(),
{
    match find_last_separator(p, end, style) {
        Some(i) => i + 1,
        None => 0,
    }
}

/// Appends the bytes `src[from..to]` to `out`.
pub fn append_range(out: &mut Vec<u8>, src: &[u8], from: usize, to: usize)
    requires
        from <= to <= src@.len(),
    ensures
        final(out)@ == old(out)@ + src@.subrange(from as int, to as int),
{
    let mut i: usize = from;
    while i < to
        invariant
            from <= i <= to <= src@.len(),
            out@ == old(out)@ + src@.subrange(from as int, i as int),
        decreases to - i,
    {
        out.push(src[i]);
        assert(src@.subrange(from as int, i + 1) =~= src@.subrange(from as int, i as int).push(
            src@[i as int],
        ));
        i = i + 1;
    }
}

pub open spec fn component_views(s: Seq<Vec<u8>>) -> Seq<Seq<u8>> {
    s.map_values(|v: Vec<u8>| v@)
}

fn is_component(c: &Vec<u8>, dots: usize) -> (r: bool)
    requires
        1 <= dots <= 2,
    ensures
        dots == 1 ==> r == (c@ == seq![DOT]),
        dots == 2 ==> r == (c@ == seq![DOT, DOT]),
{
    if c.len() != dots {
        assert(dots == 1 ==> c@.len() != seq![DOT].len());
        assert(dots == 2 ==> c@.len() != seq![DOT, DOT].len());
        return false;
    }
    if c[0] != DOT {
        assert(dots == 1 ==> c@[0] != seq![DOT][0]);
        assert(dots == 2 ==> c@[0] != seq![DOT, DOT][0]);
        return false;
    }
    if dots == 2 && c[1] != DOT {
        assert(c@[1] != seq![DOT, DOT][1]);
        return false;
    }
    assert(dots == 1 ==> c@ =~= seq![DOT]);
    assert(dots == 2 ==> c@ =~= seq![DOT, DOT]);
    true
}

fn add_component(stack: &mut Vec<Vec<u8>>, comp: Vec<u8>, rooted: bool)
    ensures
        component_views(final(stack)@) == push_component(
            component_views(old(stack)@),
            comp@,
            rooted,
        ),
{
    let ghost before = component_views(stack@);
    if comp.len() == 0 || is_component(&comp, 1) {
        return;
    }
    if is_component(&comp, 2) {
        let n = stack.len();
        if n > 0 && !is_component(&stack[n - 1], 2) {
            assert(before.last() == stack@[n - 1]@);
            let _ = stack.pop();
            assert(component_views(stack@) =~= before.drop_last());
        } else if !rooted {
            stack.push(comp);
            assert(component_views(stack@) =~= before.push(comp@));
        }
        return;
    }
    let ghost cv = comp@;
    stack.push(comp);
    assert(component_views(stack@) =~= before.push(cv));
}

/// The canonical form of `p`.
pub fn canonicalize(p: &[u8], style: PathStyle) -> (r: Vec<u8>)
    ensures
        r@ == canonical(p@, style),
{
    let rooted = p.len() > 0 && is_separator(p[0], style);
    let mut stack: Vec<Vec<u8>> = Vec::new();
    let mut cur: Vec<u8> = Vec::new();
    let mut i: usize = 0;
    assert(component_views(stack@) =~= Seq::<Seq<u8>>::empty());
    assert(p@.subrange(0, 0) =~= Seq::<u8>::empty());
    while i < p.len()
        invariant
            i <= p@.len(),
            rooted == is_rooted(p@, style),
            (component_views(stack@), cur@) == scan_components(
                p@.subrange(0, i as int),
                style,
                rooted,
            ),
        decreases p@.len() - i,
    {
        assert(p@.subrange(0, i + 1).drop_last() =~= p@.subrange(0, i as int));
        assert(p@.subrange(0, i + 1).last() == p@[i as int]);
        if is_separator(p[i], style) {
            let done = cur;
            cur = Vec::new();
            add_component(&mut stack, done, rooted);
            assert(cur@ =~= Seq::<u8>::empty());
        } else {
            cur.push(p[i]);
        }
        i = i + 1;
    }
    assert(p@.subrange(0, i as int) =~= p@);
    add_component(&mut stack, cur, rooted);
    let ghost cs = component_views(stack@);
    let mut out: Vec<u8> = Vec::new();
    if rooted {
        out.push(SLASH);
    }
    let ghost lead = out@;
    let mut k: usize = 0;
    assert(cs.subrange(0, 0) =~= Seq::<Seq<u8>>::empty());
    assert(lead + Seq::<u8>::empty() =~= lead);
    while k < stack.len()
        invariant
            k <= stack@.len(),
            cs == component_views(stack@),
            out@ == lead + join_components(cs.subrange(0, k as int)),
        decreases stack@.len() - k,
    {
        let ghost before = out@;
        assert(cs.subrange(0, k + 1).drop_last() =~= cs.subrange(0, k as int));
        assert(cs.subrange(0, k + 1).last() == stack@[k as int]@);
        if k > 0 {
            out.push(SLASH);
        }
        let c = stack[k].as_slice();
        append_range(&mut out, c, 0, c.len());
        assert(c@.subrange(0, c@.len() as int) =~= c@);
        if k == 0 {
            assert(cs.subrange(0, 1)[0] == c@);
            assert(out@ =~= lead + join_components(cs.subrange(0, k + 1)));
        } else {
            assert(out@ =~= lead + join_components(cs.subrange(0, k + 1)));
        }
        k = k + 1;
    }
    assert(cs.subrange(0, k as int) =~= cs);
    if !rooted {
        assert(lead =~= Seq::<u8>::empty());
        assert(out@ =~= join_components(cs));
    }
    out
}

/// Resolves the module path `name` imported by module `importer`.
///
/// A simple name is returned unchanged, since the loader finds it; so is an
/// absolute path. A relative path is joined onto the directory of
/// `importer` and made canonical: every `.` component is dropped and every
/// `x/..` pair folded, so that a `..` is left only where it climbs above the
/// start of a relative path.
pub fn default_resolve_module(name: &str, importer: &str, style: PathStyle) -> (r: Vec<u8>)
    ensures
        r@ == resolve_spec(name.spec_bytes(), importer.spec_bytes(), style),
        path_type_spec(name.spec_bytes(), style) != PathType::Relative ==> r@
            == name.spec_bytes(),
{
    let n = name.as_bytes();
    let imp = importer.as_bytes();
    let mut out: Vec<u8> = Vec::new();
    if path_type(n, style) != PathType::Relative {
        append_range(&mut out, n, 0, n.len());
        assert(n@.subrange(0, n@.len() as int) =~= n@);
        return out;
    }
    let first = component_start(imp, imp.len(), style);
    let dir_end: usize = if first > 0 {
        first - 1
    } else {
        0
    };
    assert(imp@.subrange(0, imp@.len() as int) =~= imp@);
    assert(imp@.subrange(0, dir_end as int) =~= parent_dir(imp@, style));
    let mut joined: Vec<u8> = Vec::new();
    append_range(&mut joined, imp, 0, dir_end);
    if dir_end > 0 {
        joined.push(SLASH);
    }
    append_range(&mut joined, n, 0, n.len());
    assert(n@.subrange(0, n@.len() as int) =~= n@);
    assert(joined@ =~= join_path(parent_dir(imp@, style), n@));
    canonicalize(joined.as_slice(), style)
}

/// The file that holds the source of module `name`: the name with the
/// `.wren` extension appended.
pub fn module_file_name(name: &str) -> (r: Vec<u8>)
    ensures
        r@ == name.spec_bytes() + seq![DOT, LOWER_W, LOWER_R, LOWER_E, LOWER_N],
{
    let mut out: Vec<u8> = Vec::new();
    let b = name.as_bytes();
    append_range(&mut out, b, 0, b.len());
    assert(b@.subrange(0, b@.len() as int) =~= b@);
    out.push(DOT);
    out.push(LOWER_W);
    out.push(LOWER_R);
    out.push(LOWER_E);
    out.push(LOWER_N);
    out
}

} // verus!
