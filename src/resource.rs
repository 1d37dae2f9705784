use vstd::prelude::*;

verus! {

/// Index of the first `/` in `s` at or after `i`, or `s.len()` if none.
pub open spec fn slash_from(s: Seq<char>, i: int) -> int
    decreases s.len() - i,
{
    if i >= s.len() {
        s.len() as int
    } else if s[i] == '/' {
        i
    } else {
        slash_from(s, i + 1)
    }
}

/// The category of a resource path: what comes before its first `/`.
pub open spec fn path_category(path: Seq<char>) -> Seq<char> {
    path.subrange(0, slash_from(path, 0))
}

/// The name of a resource path: its second `/`-separated segment, or its
/// first when it has only one.
pub open spec fn path_name(path: Seq<char>) -> Seq<char> {
    let a = slash_from(path, 0);
    if a < path.len() {
        path.subrange(a + 1, slash_from(path, a + 1))
    } else {
        path.subrange(0, a)
    }
}

/// Where the texture `namespace:category/name` lies under the asset root:
/// `namespace/textures/category/name.png`.
pub open spec fn texture_path_spec(namespace: Seq<char>, path: Seq<char>) -> Seq<char> {
    namespace + seq!['/', 't', 'e', 'x', 't', 'u', 'r', 'e', 's', '/'] + path_category(path)
        + seq!['/'] + path_name(path) + seq!['.', 'p', 'n', 'g']
}

/// Finds the first `/` at or after `from`.
fn find_slash(s: &str, from: usize, len: usize) -> (r: usize)
    requires
        len == s@.len(),
        from <= len,
    ensures
        r == slash_from(s@, from as int),
        from <= r <= len,
{
    let mut i = from;
    while i < len
        invariant
            from <= i <= len,
            len == s@.len(),
            slash_from(s@, i as int) == slash_from(s@, from as int),
        decreases len - i,
    {
        if s.get_char(i) == '/' {
            return i;
        }
        i = i + 1;
    }
    i
}

/// Appends the characters of `s` from `from` up to `to`.
fn push_range(out: &mut Vec<char>, s: &str, from: usize, to: usize)
    requires
        from <= to <= s@.len(),
    ensures
        final(out)@ == old(out)@ + s@.subrange(from as int, to as int),
{
    let mut i = from;
    while i < to
        invariant
            from <= i <= to,
            to <= s@.len(),
            out@ == old(out)@ + s@.subrange(from as int, i as int),
        decreases to - i,
    {
        let c = s.get_char(i);
        out.push(c);
        assert(s@.subrange(from as int, i + 1) =~= s@.subrange(from as int, i as int).push(c));
        i = i + 1;
    }
}

/// The path, relative to the asset root, of the texture with the given
/// namespace and resource path.
pub fn texture_path(namespace: &str, path: &str) -> (r: Vec<char>)
    ensures
        r@ == texture_path_spec(namespace@, path@),
{
    let len = path.unicode_len();
    let a = find_slash(path, 0, len);
    let (name_from, name_to) = if a < len {
        let b = find_slash(path, a + 1, len);
        (a + 1, b)
    } else {
        (0, a)
    };
    let mut out: Vec<char> = Vec::new();
    let ns_len = namespace.unicode_len();
    push_range(&mut out, namespace, 0, ns_len);
    let ghost p0 = out@;
    out.push('/');
    out.push('t');
    out.push('e');
    out.push('x');
    out.push('t');
    out.push('u');
    out.push('r');
    out.push('e');
    out.push('s');
    out.push('/');
    let ghost p1 = out@;
    push_range(&mut out, path, 0, a);
    let ghost p2 = out@;
    out.push('/');
    let ghost p3 = out@;
    push_range(&mut out, path, name_from, name_to);
    let ghost p4 = out@;
    out.push('.');
    out.push('p');
    out.push('n');
    out.push('g');
    assert(namespace@.subrange(0, ns_len as int) =~= namespace@);
    assert(p1 =~= namespace@ + seq!['/', 't', 'e', 'x', 't', 'u', 'r', 'e', 's', '/']);
    assert(out@ =~= texture_path_spec(namespace@, path@));
    out
}

} // verus!
