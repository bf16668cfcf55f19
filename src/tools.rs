//! Tool descriptors and the registry that resolves a call's name to a tool.

use vstd::prelude::*;

verus! {

/// The shape of a tool's arguments, as declared to the model.
#[derive(Debug)]
pub struct Parameters {
    pub type_field: String,
    pub properties: serde_json::Value,
    pub required: Vec<String>,
}

/// What the model is told of a tool: its name, what it does, and its arguments.
#[derive(Debug)]
pub struct ToolDefinition {
    pub name: String,
    pub description: String,
    pub parameters: Parameters,
}

impl Clone for Parameters {
    fn clone(&self) -> (r: Self)
        ensures
            r.type_field == self.type_field,
            r.properties == self.properties,
            r.required@ == self.required@,
    {
        let required = self.required.clone();
        assert(required@ =~= self.required@);
        Parameters {
            type_field: self.type_field.clone(),
            properties: self.properties.clone(),
            required,
        }
    }
}

impl Clone for ToolDefinition {
    fn clone(&self) -> (r: Self)
        ensures
            r.name == self.name,
            r.description == self.description,
            r.parameters.type_field == self.parameters.type_field,
            r.parameters.properties == self.parameters.properties,
            r.parameters.required@ == self.parameters.required@,
    {
        ToolDefinition {
            name: self.name.clone(),
            description: self.description.clone(),
            parameters: self.parameters.clone(),
        }
    }
}

/// The argument of a tool that takes a tool's name.
#[derive(Debug)]
pub struct ToolNameInput {
    pub name: String,
}

/// A schema property that lists attendees.
#[derive(Debug)]
pub struct Properties {
    pub attendees: Attendees,
}

#[derive(Debug)]
pub struct Attendees {
    pub type_field: String,
    pub items: Option<Items>,
    pub description: String,
}

#[derive(Debug)]
pub struct Items {
    pub type_field: String,
}

/// A registered tool: its descriptor, and the handle that executes it.
#[derive(Debug)]
pub struct ToolEntry<T> {
    pub definition: ToolDefinition,
    pub tool: T,
}

/// The name under which an entry is registered.
pub open spec fn entry_name<T>(e: ToolEntry<T>) -> Seq<char> {
    e.definition.name@
}

/// The mapping after `entry` was registered in `m`.
pub open spec fn registered<T>(m: Map<Seq<char>, ToolEntry<T>>, entry: ToolEntry<T>) -> Map<
    Seq<char>,
    ToolEntry<T>,
> {
    m.insert(entry_name(entry), entry)
}

/// A mapping from tool name to tool. Names are unique; registering a name
/// again replaces the earlier entry.
pub struct ToolRegistry<T> {
    entries: Vec<ToolEntry<T>>,
    model: Ghost<Map<Seq<char>, ToolEntry<T>>>,
}

impl<T> View for ToolRegistry<T> {
    type V = Map<Seq<char>, ToolEntry<T>>;

    closed spec fn view(&self) -> Map<Seq<char>, ToolEntry<T>> {
        self.model@
    }
}

impl<T> ToolRegistry<T> {
    /// Names are unique, and the entries are exactly the mapping's values.
    pub closed spec fn wf(&self) -> bool {
        let s = self.entries@;
        let m = self.model@;
        &&& forall|i: int, j: int|
            0 <= i < j < s.len() ==> entry_name(#[trigger] s[i]) != entry_name(#[trigger] s[j])
        &&& forall|i: int|
            0 <= i < s.len() ==> m.contains_key(entry_name(#[trigger] s[i])) && m[entry_name(
                s[i],
            )] == s[i]
        &&& forall|k: Seq<char>|
            #[trigger] m.contains_key(k) ==> exists|i: int| 0 <= i < s.len() && entry_name(s[i]) == k
        &&& m.dom().finite()
        &&& m.dom().len() == s.len()
    }

    /// An empty registry.
    pub fn new() -> (r: Self)
        ensures
            r.wf(),
            r@ == Map::<Seq<char>, ToolEntry<T>>::empty(),
    {
        ToolRegistry { entries: Vec::new(), model: Ghost(Map::empty()) }
    }

    /// The position of the entry named `name`, if there is one.
    fn position(&self, name: &String) -> (r: Option<usize>)
        requires
            self.wf(),
        ensures
            match r {
                Some(i) => i < self.entries@.len() && entry_name(self.entries@[i as int]) == name@,
                None => !self@.contains_key(name@),
            },
    {
        let mut i: usize = 0;
        while i < self.entries.len()
            invariant
                i <= self.entries@.len(),
                forall|j: int| 0 <= j < i ==> entry_name(#[trigger] self.entries@[j]) != name@,
            decreases self.entries@.len() - i,
        {
            if self.entries[i].definition.name == *name {
                return Some(i);
            }
            i = i + 1;
        }
        None
    }

    /// Registers `tool` under the name in `definition`, replacing any entry of that name.
    pub fn register(&mut self, definition: ToolDefinition, tool: T)
        requires
            old(self).wf(),
        ensures
            final(self).wf(),
            final(self)@ == registered(old(self)@, ToolEntry { definition, tool }),
    {
        let ghost name = definition.name@;
        let entry = ToolEntry { definition, tool };
        let ghost new_model = self.model@.insert(name, entry);
        match self.position(&entry.definition.name) {
            Some(i) => {
                let ghost s = self.entries@;
                proof {
                    assert(self.model@.contains_key(name));
                    assert(new_model.dom() =~= self.model@.dom());
                }
                self.entries.set(i, entry);
                self.model = Ghost(new_model);
                proof {
                    let s2 = self.entries@;
                    assert forall|k: Seq<char>| #[trigger] new_model.contains_key(k) implies exists|
                        j: int,
                    | 0 <= j < s2.len() && entry_name(s2[j]) == k by {
                        if k != name {
                            let j = choose|j: int| 0 <= j < s.len() && entry_name(s[j]) == k;
                            assert(entry_name(s2[j]) == k);
                        } else {
                            assert(entry_name(s2[i as int]) == k);
                        }
                    }
                }
            },
            None => {
                let ghost s = self.entries@;
                self.entries.push(entry);
                self.model = Ghost(new_model);
                proof {
                    let s2 = self.entries@;
                    assert(s2[s.len() as int] == entry);
                    assert forall|j: int| 0 <= j < s.len() implies s2[j] == s[j] by {}
                    assert forall|k: Seq<char>| #[trigger] new_model.contains_key(k) implies exists|
                        j: int,
                    | 0 <= j < s2.len() && entry_name(s2[j]) == k by {
                        if k != name {
                            let j = choose|j: int| 0 <= j < s.len() && entry_name(s[j]) == k;
                            assert(entry_name(s2[j]) == k);
                        } else {
                            assert(entry_name(s2[s.len() as int]) == k);
                        }
                    }
                }
            },
        }
    }

    /// The entry registered under `name`; absence is no error here.
    pub fn lookup(&self, name: &String) -> (r: Option<&ToolEntry<T>>)
        requires
            self.wf(),
        ensures
            match r {
                Some(e) => self@.contains_key(name@) && *e == self@[name@],
                None => !self@.contains_key(name@),
            },
    {
        match self.position(name) {
            Some(i) => Some(&self.entries[i]),
            None => None,
        }
    }

    /// Whether a tool is registered under `name`.
    pub fn contains(&self, name: &String) -> (r: bool)
        requires
            self.wf(),
        ensures
            r == self@.contains_key(name@),
    {
        self.position(name).is_some()
    }

    /// The number of registered tools.
    pub fn len(&self) -> (r: usize)
        requires
            self.wf(),
        ensures
            r == self@.len(),
    {
        self.entries.len()
    }

    /// The descriptor of every registered tool, each once, for building a
    /// request to the model.
    pub fn definitions(&self) -> (r: Vec<&ToolDefinition>)
        requires
            self.wf(),
        ensures
            r@.len() == self@.len(),
            forall|i: int|
                0 <= i < r@.len() ==> self@.contains_key((#[trigger] r@[i]).name@)
                    && self@[r@[i].name@].definition == *r@[i],
            forall|i: int, j: int| 0 <= i < j < r@.len() ==> (#[trigger] r@[i]).name@ != (#[trigger] r@[j]).name@,
            forall|k: Seq<char>| #[trigger] self@.contains_key(k) ==> exists|i: int| 0 <= i < r@.len() && r@[i].name@ == k,
    {
        let mut r: Vec<&ToolDefinition> = Vec::new();
        let mut i: usize = 0;
        while i < self.entries.len()
            invariant
                i <= self.entries@.len(),
                r@.len() == i,
                forall|j: int| 0 <= j < i ==> #[trigger] r@[j] == &self.entries@[j].definition,
            decreases self.entries@.len() - i,
        {
            r.push(&self.entries[i].definition);
            i = i + 1;
        }
        proof {
            let s = self.entries@;
            assert forall|i: int| 0 <= i < r@.len() implies self@.contains_key((#[trigger] r@[i]).name@)
                && self@[r@[i].name@].definition == *r@[i] by {
                assert(entry_name(s[i]) == r@[i].name@);
            }
            assert forall|i: int, j: int| 0 <= i < j < r@.len() implies (#[trigger] r@[i]).name@ != (#[trigger] r@[j]).name@ by {
                assert(entry_name(s[i]) != entry_name(s[j]));
            }
            assert forall|k: Seq<char>| #[trigger] self@.contains_key(k) implies exists|i: int| 0 <= i < r@.len() && r@[i].name@ == k by {
                let i = choose|i: int| 0 <= i < s.len() && entry_name(s[i]) == k;
                assert(r@[i].name@ == k);
            }
        }
        r
    }
}

/// Registering two entries under one name leaves a single entry for that name,
/// the second; the first leaves no trace, and the number of tools is what one
/// registration of the second gives.
pub proof fn lemma_last_registration_wins<T>(
    m: Map<Seq<char>, ToolEntry<T>>,
    first: ToolEntry<T>,
    second: ToolEntry<T>,
)
    requires
        m.dom().finite(),
        entry_name(first) == entry_name(second),
    ensures
        registered(registered(m, first), second) == registered(m, second),
        registered(registered(m, first), second).contains_key(entry_name(second)),
        registered(registered(m, first), second)[entry_name(second)] == second,
        registered(registered(m, first), second).len() == m.len() + (if m.contains_key(
            entry_name(second),
        ) {
            0int
        } else {
            1int
        }),
{
    assert(registered(registered(m, first), second) =~= registered(m, second));
}

} // verus!
