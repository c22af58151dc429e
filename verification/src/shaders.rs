//! The shader cache and the per-program state the pipeline reads.
//!
//! Every drawable and every light compiles its GPU program at most once per
//! process: each frame it asks the cache for its logical shader name and
//! compiles only on a miss.  The cache is therefore an insert-if-absent
//! mapping from logical name to compiled program; repeated loads are no-ops
//! and the cache's size equals the number of distinct variants ever loaded.
//! The stored [`ShaderProgram`] is the verified stand-in for the compiled
//! GPU object, which the GPU layer keeps keyed by the same name.

use vstd::prelude::*;

verus! {

/// Logical name of a shader program.  Each drawable or light variant owns a
/// fixed vertex/fragment source pair under one of these names.
#[derive(Clone, Copy, PartialEq, Eq, Structural, Debug)]
pub enum ShaderName {
    /// The sprite geometry pass (albedo / height / roughness channels).
    SpriteAhr,
    /// The one-shot normal-synthesis pass.
    GenerateNormals,
    /// The directional-light accumulation pass.
    DirectionalLight,
}

/// A compiled shader program, as the verified pipeline sees it: a handle
/// tagged with the variant whose fixed source pair it was compiled from.
/// The GPU layer owns the actual program object under the same name.
#[derive(Clone, Copy, PartialEq, Eq, Structural, Debug)]
pub struct ShaderProgram {
    pub name: ShaderName,
}

/// The mapping `entries` denotes: later entries win, though the cache's own
/// invariant keeps every key unique.
pub open spec fn entries_map(s: Seq<(ShaderName, ShaderProgram)>) -> Map<ShaderName, ShaderProgram>
    decreases s.len(),
{
    if s.len() == 0 {
        Map::empty()
    } else {
        entries_map(s.drop_last()).insert(s.last().0, s.last().1)
    }
}

/// No shader name occurs twice among `s`.
pub open spec fn unique_names(s: Seq<(ShaderName, ShaderProgram)>) -> bool {
    forall|i: int, j: int| 0 <= i < j < s.len() ==> (#[trigger] s[i]).0 != (#[trigger] s[j]).0
}

proof fn lemma_entries_map_index(s: Seq<(ShaderName, ShaderProgram)>, i: int)
    requires
        unique_names(s),
        0 <= i < s.len(),
    ensures
        entries_map(s).contains_key(s[i].0),
        entries_map(s)[s[i].0] == s[i].1,
    decreases s.len(),
{
    if i < s.len() - 1 {
        lemma_entries_map_index(s.drop_last(), i);
    }
}

proof fn lemma_entries_map_dom(s: Seq<(ShaderName, ShaderProgram)>, k: ShaderName)
    ensures
        entries_map(s).contains_key(k) <==> exists|i: int|
            0 <= i < s.len() && (#[trigger] s[i]).0 == k,
    decreases s.len(),
{
    if s.len() > 0 {
        lemma_entries_map_dom(s.drop_last(), k);
        if s.last().0 != k {
            if entries_map(s).contains_key(k) {
                let i = choose|i: int| 0 <= i < s.len() - 1 && (#[trigger] s.drop_last()[i]).0 == k;
                assert(s[i].0 == k);
            }
            if exists|i: int| 0 <= i < s.len() && (#[trigger] s[i]).0 == k {
                let i = choose|i: int| 0 <= i < s.len() && (#[trigger] s[i]).0 == k;
                assert(i < s.len() - 1 && s.drop_last()[i].0 == k);
            }
        }
    }
}

proof fn lemma_entries_map_len(s: Seq<(ShaderName, ShaderProgram)>)
    requires
        unique_names(s),
    ensures
        entries_map(s).dom().finite(),
        entries_map(s).dom().len() == s.len(),
    decreases s.len(),
{
    if s.len() > 0 {
        lemma_entries_map_len(s.drop_last());
        lemma_entries_map_dom(s.drop_last(), s.last().0);
        assert(forall|i: int|
            0 <= i < s.len() - 1 ==> (#[trigger] s.drop_last()[i]).0 == s[i].0);
        assert(!entries_map(s.drop_last()).contains_key(s.last().0));
    }
}

/// The process-held cache of compiled shader programs, keyed by logical
/// name.  Populated lazily by each drawable and light on first use, queried
/// every frame; inserts are idempotent, so its size is the number of
/// distinct variants loaded so far.
pub struct ShaderCache {
    entries: Vec<(ShaderName, ShaderProgram)>,
}

impl ShaderCache {
    /// The mapping the cache currently holds.
    pub closed spec fn view(&self) -> Map<ShaderName, ShaderProgram> {
        entries_map(self.entries@)
    }

    /// The cache's invariant: every logical name is stored at most once.
    pub closed spec fn wf(&self) -> bool {
        unique_names(self.entries@)
    }

    /// An empty cache, the state at program start.
    pub fn new() -> (c: ShaderCache)
        ensures
            c.wf(),
            c@ == Map::<ShaderName, ShaderProgram>::empty(),
    {
        ShaderCache { entries: Vec::new() }
    }

    /// Looks up the compiled program for `name`: `Some` exactly when the
    /// name has been loaded, and then the very program stored for it.
    /// Absence is the expected first-frame condition, not a failure.
    pub fn get(&self, name: ShaderName) -> (r: Option<ShaderProgram>)
        requires
            self.wf(),
        ensures
            match r {
                Some(p) => self@.contains_key(name) && p == self@[name],
                None => !self@.contains_key(name),
            },
    {
        proof {
            lemma_entries_map_dom(self.entries@, name);
        }
        let n = self.entries.len();
        let mut i: usize = 0;
        while i < n
            invariant
                n == self.entries@.len(),
                0 <= i <= n,
                self.wf(),
                forall|j: int| 0 <= j < i ==> (#[trigger] self.entries@[j]).0 != name,
            decreases n - i,
        {
            if self.entries[i].0 == name {
                proof {
                    lemma_entries_map_index(self.entries@, i as int);
                }
                return Some(self.entries[i].1);
            }
            i = i + 1;
        }
        None
    }

    /// The number of distinct shader variants loaded so far.
    pub fn len(&self) -> (n: usize)
        requires
            self.wf(),
        ensures
            n == self@.dom().len(),
            self@.dom().finite(),
    {
        proof {
            lemma_entries_map_len(self.entries@);
        }
        self.entries.len()
    }

    /// Inserts `program` under `name` unless the name is already present:
    /// the idempotent insert the per-frame load protocol relies on.
    pub fn add(&mut self, program: ShaderProgram, name: ShaderName)
        requires
            old(self).wf(),
        ensures
            final(self).wf(),
            final(self)@ == cache_insert(old(self)@, name, program),
    {
        if self.get(name).is_some() {
            return;
        }
        proof {
            lemma_entries_map_dom(self.entries@, name);
            assert(self.entries@.push((name, program)).drop_last() =~= self.entries@);
        }
        self.entries.push((name, program));
    }
}

/// One insert-if-absent step of the cache: a present name leaves the cache
/// unchanged, an absent one is bound to the offered program.
pub open spec fn cache_insert(
    m: Map<ShaderName, ShaderProgram>,
    name: ShaderName,
    program: ShaderProgram,
) -> Map<ShaderName, ShaderProgram> {
    if m.contains_key(name) {
        m
    } else {
        m.insert(name, program)
    }
}

/// The cache state after a whole sequence of load requests, oldest first.
pub open spec fn cache_after_loads(
    m: Map<ShaderName, ShaderProgram>,
    reqs: Seq<(ShaderName, ShaderProgram)>,
) -> Map<ShaderName, ShaderProgram>
    decreases reqs.len(),
{
    if reqs.len() == 0 {
        m
    } else {
        cache_after_loads(cache_insert(m, reqs[0].0, reqs[0].1), reqs.drop_first())
    }
}

/// Idempotent shader loading: once a name is bound, every later load of the
/// same name — whatever program it would offer — is a no-op, so N loads of
/// one variant leave exactly one compiled program in the cache.
pub proof fn lemma_cache_insert_idempotent(
    m: Map<ShaderName, ShaderProgram>,
    name: ShaderName,
    p1: ShaderProgram,
    p2: ShaderProgram,
)
    ensures
        cache_insert(cache_insert(m, name, p1), name, p2) == cache_insert(m, name, p1),
{
    assert(cache_insert(m, name, p1).contains_key(name));
}

/// After any sequence of loads, a name is cached exactly when it was cached
/// before or some request named it.
pub proof fn lemma_cache_after_loads_dom(
    m: Map<ShaderName, ShaderProgram>,
    reqs: Seq<(ShaderName, ShaderProgram)>,
    k: ShaderName,
)
    ensures
        cache_after_loads(m, reqs).dom().contains(k) <==> m.dom().contains(k) || exists|i: int|
            0 <= i < reqs.len() && (#[trigger] reqs[i]).0 == k,
    decreases reqs.len(),
{
    if reqs.len() > 0 {
        lemma_cache_after_loads_dom(cache_insert(m, reqs[0].0, reqs[0].1), reqs.drop_first(), k);
        if exists|i: int| 0 <= i < reqs.drop_first().len() && (#[trigger] reqs.drop_first()[i]).0 == k {
            let i = choose|i: int|
                0 <= i < reqs.drop_first().len() && (#[trigger] reqs.drop_first()[i]).0 == k;
            assert(reqs[i + 1].0 == k);
        }
        if exists|i: int| 0 <= i < reqs.len() && (#[trigger] reqs[i]).0 == k {
            let i = choose|i: int| 0 <= i < reqs.len() && (#[trigger] reqs[i]).0 == k;
            if i > 0 {
                assert(reqs.drop_first()[i - 1].0 == k);
            }
        }
    }
}

/// Cache size across variants: starting from an empty cache, any sequence of
/// load requests leaves the cache holding exactly the set of distinct names
/// requested — N calls across M distinct variants populate M programs.
pub proof fn lemma_cache_size_counts_variants(reqs: Seq<(ShaderName, ShaderProgram)>)
    ensures
        cache_after_loads(Map::empty(), reqs).dom() =~= reqs.map_values(
            |r: (ShaderName, ShaderProgram)| r.0,
        ).to_set(),
{
    let names = reqs.map_values(|r: (ShaderName, ShaderProgram)| r.0);
    assert forall|k: ShaderName|
        cache_after_loads(Map::<ShaderName, ShaderProgram>::empty(), reqs).dom().contains(k)
            <==> names.to_set().contains(k) by {
        lemma_cache_after_loads_dom(Map::empty(), reqs, k);
        if exists|i: int| 0 <= i < reqs.len() && (#[trigger] reqs[i]).0 == k {
            let i = choose|i: int| 0 <= i < reqs.len() && (#[trigger] reqs[i]).0 == k;
            assert(names[i] == k);
        }
        if names.to_set().contains(k) {
            let i = choose|i: int| 0 <= i < names.len() && names[i] == k;
            assert(reqs[i].0 == k);
        }
    }
}

/// The cache state after every shader named in `names`, oldest first, has
/// been loaded: each name is bound — on its first occurrence only — to the
/// program compiled from that variant's fixed source pair.
pub open spec fn cache_after_names(
    m: Map<ShaderName, ShaderProgram>,
    names: Seq<ShaderName>,
) -> Map<ShaderName, ShaderProgram>
    decreases names.len(),
{
    if names.len() == 0 {
        m
    } else {
        cache_after_names(
            cache_insert(m, names[0], ShaderProgram { name: names[0] }),
            names.drop_first(),
        )
    }
}

/// Loading one more shader after a run of loads is the run followed by one
/// insert-if-absent step.
pub proof fn lemma_cache_after_names_snoc(
    m: Map<ShaderName, ShaderProgram>,
    names: Seq<ShaderName>,
    n: ShaderName,
)
    ensures
        cache_after_names(m, names.push(n)) == cache_insert(
            cache_after_names(m, names),
            n,
            ShaderProgram { name: n },
        ),
    decreases names.len(),
{
    assert(names.push(n).len() == names.len() + 1);
    assert(cache_after_names(m, names.push(n)) == cache_after_names(
        cache_insert(m, names.push(n)[0], ShaderProgram { name: names.push(n)[0] }),
        names.push(n).drop_first(),
    ));
    if names.len() == 0 {
        assert(names.push(n)[0] == n);
        assert(names.push(n).drop_first() =~= Seq::<ShaderName>::empty());
        assert(cache_after_names(m, Seq::<ShaderName>::empty()) == m);
        assert(cache_after_names(cache_insert(m, n, ShaderProgram { name: n }),
            Seq::<ShaderName>::empty()) == cache_insert(m, n, ShaderProgram { name: n }));
    } else {
        assert(names.push(n)[0] == names[0]);
        assert(names.push(n).drop_first() =~= names.drop_first().push(n));
        lemma_cache_after_names_snoc(
            cache_insert(m, names[0], ShaderProgram { name: names[0] }),
            names.drop_first(),
            n,
        );
    }
}

/// Loading two runs of shaders in a row folds the same as loading the first
/// run and then the second.
pub proof fn lemma_cache_after_names_concat(
    m: Map<ShaderName, ShaderProgram>,
    s1: Seq<ShaderName>,
    s2: Seq<ShaderName>,
)
    ensures
        cache_after_names(m, s1 + s2) == cache_after_names(cache_after_names(m, s1), s2),
    decreases s1.len(),
{
    if s1.len() == 0 {
        assert(s1 + s2 =~= s2);
    } else {
        assert((s1 + s2)[0] == s1[0]);
        assert((s1 + s2).drop_first() =~= s1.drop_first() + s2);
        lemma_cache_after_names_concat(
            cache_insert(m, s1[0], ShaderProgram { name: s1[0] }),
            s1.drop_first(),
            s2,
        );
    }
}

/// The per-program state the pipeline reads and writes: the fixed output
/// resolution every pass must agree on, and the shader cache.  The display
/// handle and the shared index buffer of the full program live in the GPU
/// layer, which owns a value of this type alongside them.
pub struct LumenpyxProgram {
    /// Output resolution, width then height; never zero.
    pub dimensions: [u32; 2],
    /// The process-held shader cache.
    pub shader_cache: ShaderCache,
}

impl LumenpyxProgram {
    /// The program state is well formed when its cache is and its output
    /// resolution is positive on both axes.
    pub open spec fn wf(&self) -> bool {
        &&& self.shader_cache.wf()
        &&& self.dimensions[0] > 0
        &&& self.dimensions[1] > 0
    }

    /// Fresh program state at the given output resolution, with nothing
    /// compiled yet.
    pub fn new(dimensions: [u32; 2]) -> (p: LumenpyxProgram)
        requires
            dimensions[0] > 0,
            dimensions[1] > 0,
        ensures
            p.wf(),
            p.dimensions == dimensions,
            p.shader_cache@ == Map::<ShaderName, ShaderProgram>::empty(),
    {
        LumenpyxProgram { dimensions, shader_cache: ShaderCache::new() }
    }

    /// Looks up a compiled shader by logical name; see [`ShaderCache::get`].
    pub fn get_shader(&self, name: ShaderName) -> (r: Option<ShaderProgram>)
        requires
            self.wf(),
        ensures
            match r {
                Some(p) => self.shader_cache@.contains_key(name) && p == self.shader_cache@[name],
                None => !self.shader_cache@.contains_key(name),
            },
    {
        self.shader_cache.get(name)
    }

    /// Registers a compiled shader under `name` unless one is already
    /// cached; see [`ShaderCache::add`].
    pub fn add_shader(&mut self, program: ShaderProgram, name: ShaderName)
        requires
            old(self).wf(),
        ensures
            final(self).wf(),
            final(self).dimensions == old(self).dimensions,
            final(self).shader_cache@ == cache_insert(old(self).shader_cache@, name, program),
    {
        self.shader_cache.add(program, name);
    }
}

} // verus!
