use vstd::prelude::*;

verus! {

/// The text of each string in a sequence.
pub open spec fn texts(v: Seq<String>) -> Seq<Seq<char>> {
    v.map_values(|s: String| s@)
}

/// The names among `names` that `reg` holds, in their order.
pub open spec fn found_names(reg: Seq<Seq<char>>, names: Seq<Seq<char>>) -> Seq<Seq<char>> {
    names.filter(|n: Seq<char>| reg.contains(n))
}

/// The names among `names` that `reg` lacks, in their order.
pub open spec fn missing_names(reg: Seq<Seq<char>>, names: Seq<Seq<char>>) -> Seq<Seq<char>> {
    names.filter(|n: Seq<char>| !reg.contains(n))
}

/// The names of the tools that an agent can call. A tool is identified by its
/// position here; the implementations are kept by the caller at the same
/// positions. No name occurs twice.
#[derive(Clone, Debug)]
pub struct ToolRegistry {
    names: Vec<String>,
}

/// Which registered tools a list of names designates, and which names
/// designate none.
#[derive(Clone, Debug)]
pub struct NameResolution {
    /// Positions in the registry, in the order of the names.
    pub found: Vec<usize>,
    /// Names without a registered tool, in their order.
    pub missing: Vec<String>,
}

impl View for ToolRegistry {
    type V = Seq<Seq<char>>;

    closed spec fn view(&self) -> Seq<Seq<char>> {
        texts(self.names@)
    }
}

impl ToolRegistry {
    /// The registry's invariant: names are unique.
    pub open spec fn wf(&self) -> bool {
        self@.no_duplicates()
    }

    /// The names of the tools at the given positions.
    pub open spec fn names_at(&self, found: Seq<usize>) -> Seq<Seq<char>> {
        found.map_values(|i: usize| self@[i as int])
    }

    /// An empty registry.
    pub fn new() -> (r: ToolRegistry)
        ensures
            r.wf(),
            r@ == Seq::<Seq<char>>::empty(),
    {
        let r = ToolRegistry { names: Vec::new() };
        assert(r@ =~= Seq::<Seq<char>>::empty());
        r
    }

    /// A registry with the same names.
    pub fn duplicate(&self) -> (r: ToolRegistry)
        ensures
            r@ == self@,
    {
        let r = ToolRegistry { names: self.names.clone() };
        assert(r@ =~= self@);
        r
    }

    /// The number of registered tools.
    pub fn len(&self) -> (r: usize)
        ensures
            r == self@.len(),
    {
        self.names.len()
    }

    /// The name of the tool at position `i`.
    pub fn name(&self, i: usize) -> (r: &String)
        requires
            i < self@.len(),
        ensures
            r@ == self@[i as int],
    {
        &self.names[i]
    }

    /// Where the tool called `name` is registered, if it is.
    pub fn lookup(&self, name: &String) -> (r: Option<usize>)
        requires
            self.wf(),
        ensures
            r matches Some(i) ==> i < self@.len() && self@[i as int] == name@,
            r is None <==> !self@.contains(name@),
    {
        let mut i: usize = 0;
        while i < self.names.len()
            invariant
                i <= self.names@.len(),
                self@.len() == self.names@.len(),
                forall|k: int| 0 <= k < i ==> self@[k] != name@,
            decreases self.names@.len() - i,
        {
            if self.names[i] == *name {
                assert(self@[i as int] == name@);
                return Some(i);
            }
            i = i + 1;
        }
        None
    }

    /// Registers a tool under `name` and gives its position. Where the name
    /// is taken, that position is given: the new implementation replaces the
    /// old one there.
    pub fn add(&mut self, name: String) -> (r: usize)
        requires
            old(self).wf(),
        ensures
            final(self).wf(),
            old(self)@.contains(name@) ==> final(self)@ == old(self)@,
            !old(self)@.contains(name@) ==> final(self)@ == old(self)@.push(name@),
            r < final(self)@.len(),
            final(self)@[r as int] == name@,
    {
        match self.lookup(&name) {
            Some(i) => i,
            None => {
                let ghost before = self@;
                let ghost s = name@;
                self.names.push(name);
                assert(self@ =~= before.push(s));
                assert(self@.no_duplicates()) by {
                    assert(forall|k: int| 0 <= k < before.len() ==> before[k] != s);
                }
                self.names.len() - 1
            }
        }
    }

    /// Splits `names` into the positions of the registered tools they name
    /// and the names without a tool, keeping their order.
    pub fn resolve_names(&self, names: &Vec<String>) -> (r: NameResolution)
        requires
            self.wf(),
        ensures
            forall|k: int| 0 <= k < r.found@.len() ==> r.found@[k] < self@.len(),
            self.names_at(r.found@) == found_names(self@, texts(names@)),
            texts(r.missing@) == missing_names(self@, texts(names@)),
    {
        let mut found: Vec<usize> = Vec::new();
        let mut missing: Vec<String> = Vec::new();
        let mut i: usize = 0;
        while i < names.len()
            invariant
                i <= names@.len(),
                self.wf(),
                forall|k: int| 0 <= k < found@.len() ==> found@[k] < self@.len(),
                self.names_at(found@) == found_names(self@, texts(names@.subrange(0, i as int))),
                texts(missing@) == missing_names(self@, texts(names@.subrange(0, i as int))),
            decreases names@.len() - i,
        {
            let ghost prefix = texts(names@.subrange(0, i as int));
            let ghost next = texts(names@.subrange(0, i as int + 1));
            assert(next =~= prefix.push(names@[i as int]@));
            assert(next.drop_last() =~= prefix);
            reveal(Seq::filter);
            let ghost old_found = found@;
            let ghost old_missing = missing@;
            match self.lookup(&names[i]) {
                Some(t) => {
                    found.push(t);
                    assert(self.names_at(found@) =~= self.names_at(old_found).push(self@[t as int]));
                },
                None => {
                    missing.push(names[i].clone());
                    assert(texts(missing@) =~= texts(old_missing).push(names@[i as int]@));
                },
            }
            i = i + 1;
        }
        assert(names@.subrange(0, names@.len() as int) =~= names@);
        NameResolution { found, missing }
    }
}

} // verus!
