//! Launch options as given on the command line: bind mounts and environment
//! variables.
use vstd::prelude::*;
use vstd::string::*;

verus! {

/// Extra flags of a bind mount.
#[derive(Clone, Copy, Debug, PartialEq, Eq, Structural)]
pub struct MountFlags {
    pub recursive: bool,
    pub nosuid: bool,
    pub nodev: bool,
    pub noexec: bool,
}

impl MountFlags {
    /// No extra flag is set.
    pub open spec fn is_plain(self) -> bool {
        !self.recursive && !self.nosuid && !self.nodev && !self.noexec
    }

    /// A plain bind mount, with no extra flag.
    pub fn none() -> (r: MountFlags)
        ensures
            r.is_plain(),
    {
        MountFlags { recursive: false, nosuid: false, nodev: false, noexec: false }
    }
}

/// A host directory to make visible at a directory inside the container.
#[derive(Clone, Debug)]
pub struct MountSpec {
    pub host: String,
    pub container: String,
    pub flags: MountFlags,
}

/// `i` is the first position of `c` in `s`.
pub open spec fn is_first_index(s: Seq<char>, c: char, i: int) -> bool {
    &&& 0 <= i < s.len()
    &&& s[i] == c
    &&& forall|j: int| 0 <= j < i ==> s[j] != c
}

/// `s` split at the first `c`: the part before it and the part after it.
pub open spec fn split_first(s: Seq<char>, c: char) -> Option<(Seq<char>, Seq<char>)> {
    if s.contains(c) {
        let i = choose|i: int| is_first_index(s, c, i);
        Some((s.subrange(0, i), s.subrange(i + 1, s.len() as int)))
    } else {
        None
    }
}

proof fn lemma_first_index_unique(s: Seq<char>, c: char, i: int)
    requires
        is_first_index(s, c, i),
    ensures
        s.contains(c),
        split_first(s, c) == Some((s.subrange(0, i), s.subrange(i + 1, s.len() as int))),
{
    let k = choose|k: int| is_first_index(s, c, k);
    assert(is_first_index(s, c, k));
    if k < i {
        assert(s[k] != c);
    }
    if i < k {
        assert(s[i] != c);
    }
}

fn split_at_first(s: &str, c: char) -> (r: Option<(String, String)>)
    ensures
        r matches Some(p) ==> split_first(s@, c) == Some((p.0@, p.1@)),
        r is None ==> split_first(s@, c) is None,
{
    let n = s.unicode_len();
    let mut i: usize = 0;
    while i < n
        invariant
            n == s@.len(),
            i <= n,
            forall|j: int| 0 <= j < i ==> s@[j] != c,
        decreases n - i,
    {
        if s.get_char(i) == c {
            proof { lemma_first_index_unique(s@, c, i as int); }
            let before = String::from_str(s.substring_char(0, i));
            let after = String::from_str(s.substring_char(i + 1, n));
            return Some((before, after));
        }
        i = i + 1;
    }
    assert(!s@.contains(c));
    None
}

/// Parses a mount option `HOST:CONTAINER`, split at the first `:`, into a
/// plain bind mount; `None` when there is no `:`.
pub fn parse_mount(s: &str) -> (r: Option<MountSpec>)
    ensures
        r is None <==> split_first(s@, ':') is None,
        r matches Some(m) ==> split_first(s@, ':') == Some((m.host@, m.container@))
            && m.flags.is_plain(),
{
    match split_at_first(s, ':') {
        Some((host, container)) => Some(MountSpec { host, container, flags: MountFlags::none() }),
        None => None,
    }
}

/// Parses an environment option `NAME=VALUE`, split at the first `=`;
/// `None` when there is no `=`.
pub fn parse_env_var(s: &str) -> (r: Option<(String, String)>)
    ensures
        r is None <==> split_first(s@, '=') is None,
        r matches Some(p) ==> split_first(s@, '=') == Some((p.0@, p.1@)),
{
    split_at_first(s, '=')
}

/// `s` without its leading slashes.
pub open spec fn strip_leading_slashes(s: Seq<char>) -> Seq<char>
    decreases s.len(),
{
    if s.len() > 0 && s[0] == '/' {
        strip_leading_slashes(s.drop_first())
    } else {
        s
    }
}

/// The path, relative to the root filesystem, at which a container directory
/// is mounted while the working directory is still the root filesystem.
pub open spec fn container_target_spec(dir: Seq<char>) -> Seq<char> {
    let rel = strip_leading_slashes(dir);
    if rel.len() == 0 { seq!['.'] } else { rel }
}

/// Resolves a container directory against the not yet pivoted root
/// filesystem, which is then the working directory: the path made relative.
pub fn container_target(dir: &str) -> (r: String)
    ensures
        r@ == container_target_spec(dir@),
{
    let n = dir.unicode_len();
    let mut i: usize = 0;
    assert(dir@.subrange(0, n as int) =~= dir@);
    while i < n && dir.get_char(i) == '/'
        invariant
            n == dir@.len(),
            i <= n,
            strip_leading_slashes(dir@.subrange(i as int, n as int)) == strip_leading_slashes(dir@),
        decreases n - i,
    {
        assert(dir@.subrange(i as int, n as int).drop_first() =~= dir@.subrange(i + 1, n as int));
        i = i + 1;
    }
    let rest = dir.substring_char(i, n);
    if i == n {
        assert(rest@.len() == 0);
        proof { reveal_strlit("."); }
        String::from_str(".")
    } else {
        String::from_str(rest)
    }
}

/// The variables that a list of assignments leaves, a later assignment to a
/// name replacing an earlier one.
pub open spec fn env_map(s: Seq<(String, String)>) -> Map<Seq<char>, Seq<char>>
    decreases s.len(),
{
    if s.len() == 0 {
        Map::empty()
    } else {
        env_map(s.drop_last()).insert(s.last().0@, s.last().1@)
    }
}

/// No name is assigned twice.
pub open spec fn names_unique(s: Seq<(String, String)>) -> bool {
    forall|i: int, j: int| 0 <= i < j < s.len() ==> s[i].0@ != s[j].0@
}

proof fn lemma_env_map_update(s: Seq<(String, String)>, j: int, p: (String, String))
    requires
        names_unique(s),
        0 <= j < s.len(),
        s[j].0@ == p.0@,
    ensures
        env_map(s.update(j, p)) == env_map(s).insert(p.0@, p.1@),
    decreases s.len(),
{
    let t = s.update(j, p);
    if j == s.len() - 1 {
        assert(t.drop_last() =~= s.drop_last());
        assert(env_map(t) =~= env_map(s).insert(p.0@, p.1@));
    } else {
        assert(t.drop_last() =~= s.drop_last().update(j, p));
        lemma_env_map_update(s.drop_last(), j, p);
        assert(s.last().0@ != p.0@);
        assert(env_map(t) =~= env_map(s).insert(p.0@, p.1@));
    }
}

/// The final environment: each name once, with the value of its last
/// assignment.
pub fn finalize_env(vars: &Vec<(String, String)>) -> (r: Vec<(String, String)>)
    ensures
        names_unique(r@),
        env_map(r@) == env_map(vars@),
{
    let mut out: Vec<(String, String)> = Vec::new();
    let mut i: usize = 0;
    while i < vars.len()
        invariant
            i <= vars.len(),
            names_unique(out@),
            env_map(out@) == env_map(vars@.subrange(0, i as int)),
        decreases vars.len() - i,
    {
        let name = vars[i].0.clone();
        let value = vars[i].1.clone();
        assert(vars@.subrange(0, i + 1).drop_last() =~= vars@.subrange(0, i as int));
        let mut j: usize = 0;
        let mut found = false;
        while j < out.len() && !found
            invariant
                i < vars.len(),
                name@ == vars@[i as int].0@,
                value@ == vars@[i as int].1@,
                names_unique(out@),
                env_map(out@) == env_map(vars@.subrange(0, i as int)),
                j <= out.len(),
                found ==> j < out.len() && out@[j as int].0@ == name@,
                forall|k: int| 0 <= k < j ==> out@[k].0@ != name@,
            decreases out.len() - j + (if found { 0int } else { 1int }),
        {
            if out[j].0 == name {
                found = true;
            } else {
                j = j + 1;
            }
        }
        if found {
            proof { lemma_env_map_update(out@, j as int, (name, value)); }
            out.set(j, (name, value));
        } else {
            assert(out@.push((name, value)).drop_last() =~= out@);
            out.push((name, value));
        }
        i = i + 1;
    }
    assert(vars@.subrange(0, vars.len() as int) =~= vars@);
    out
}

} // verus!
