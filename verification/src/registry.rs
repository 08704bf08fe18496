//! The plugin registry: supervised plugins announce themselves exactly once
//! by name, and a second announcement of the same name is rejected.
//!
//! The service owns an ordered collection of previously registered names and
//! is constructed once at process start; the caller serializes access to it
//! (one registration call at a time), so every history of concurrent calls is
//! some sequence of the calls below.

use vstd::prelude::*;

verus! {

/// A plugin's self-description: its unique name.
pub struct Plugin {
    pub name: String,
}

/// The (empty) answer to a successful registration.
pub struct RegisterResponse {}

/// The typed failure of a registration call.
pub enum RegisterError {
    /// The name was already registered; the message names the duplicate.
    AlreadyExists { message: String },
}

/// Whether `name` occurs among `names`.
pub open spec fn registered(names: Seq<Seq<char>>, name: Seq<char>) -> bool {
    exists|i: int| 0 <= i < names.len() && names[i] == name
}

/// What one registration call does to the collection of names: a duplicate
/// leaves it unchanged and is refused, a fresh name is appended.
pub open spec fn spec_register(names: Seq<Seq<char>>, name: Seq<char>) -> (Seq<Seq<char>>, bool) {
    if registered(names, name) {
        (names, false)
    } else {
        (names.push(name), true)
    }
}

/// The message with which a duplicate of `name` is refused.
pub open spec fn duplicate_message(name: Seq<char>) -> Seq<char> {
    "plugin is already registered: "@ + name
}

/// The registry service: holds every name registered so far, in order of
/// arrival. Entries are never mutated or removed.
pub struct EngineService {
    plugins: Vec<Plugin>,
}

impl View for EngineService {
    type V = Seq<Seq<char>>;

    closed spec fn view(&self) -> Seq<Seq<char>> {
        self.plugins@.map(|i: int, p: Plugin| p.name@)
    }
}

impl EngineService {
    /// A registry with no names in it.
    pub fn new() -> (s: EngineService)
        ensures
            s@ == Seq::<Seq<char>>::empty(),
    {
        let s = EngineService { plugins: Vec::new() };
        proof {
            assert(s@ =~= Seq::<Seq<char>>::empty());
        }
        s
    }

    /// Registers `plugin` if its name is fresh; refuses a duplicate with a
    /// message naming it. Exactly one of the two happens, decided by whether
    /// the name was present before the call.
    pub fn register(&mut self, plugin: Plugin) -> (r: Result<RegisterResponse, RegisterError>)
        ensures
            final(self)@ == spec_register(old(self)@, plugin.name@).0,
            r is Ok <==> spec_register(old(self)@, plugin.name@).1,
            r is Ok <==> !registered(old(self)@, plugin.name@),
            (r matches Err(RegisterError::AlreadyExists { message }) ==> message@
                == duplicate_message(plugin.name@)),
    {
        let n = self.plugins.len();
        for i in 0..n
            invariant
                n == self.plugins.len(),
                forall|j: int| 0 <= j < i ==> self.plugins@[j].name@ != plugin.name@,
        {
            if string_eq(&self.plugins[i].name, &plugin.name) {
                let message = String::from_str("plugin is already registered: ").concat(
                    plugin.name.as_str(),
                );
                proof {
                    assert(self@[i as int] == self.plugins@[i as int].name@);
                    assert(registered(self@, plugin.name@));
                }
                return Err(RegisterError::AlreadyExists { message });
            }
        }
        proof {
            assert(forall|j: int| 0 <= j < self@.len() ==> self@[j] == self.plugins@[j].name@);
            assert(!registered(self@, plugin.name@));
        }
        let ghost before = self@;
        self.plugins.push(plugin);
        proof {
            assert(final(self)@ =~= before.push(plugin.name@));
        }
        Ok(RegisterResponse {})
    }

    /// How many names are registered.
    pub fn len(&self) -> (n: usize)
        ensures
            n == self@.len(),
    {
        self.plugins.len()
    }
}

/// String equality, by the views of the two strings.
fn string_eq(a: &String, b: &String) -> (r: bool)
    ensures
        r == (a@ == b@),
{
    a.eq(b)
}

/// Law: against a registry that does not yet hold `name`, two registration
/// calls for `name` end with exactly one success and one refusal, however the
/// two callers are interleaved — the registry serializes them, and whichever
/// call runs first succeeds while the other finds the name present.
pub proof fn lemma_registration_unique(names: Seq<Seq<char>>, name: Seq<char>)
    requires
        !registered(names, name),
    ensures
        spec_register(names, name).1,
        !spec_register(spec_register(names, name).0, name).1,
        spec_register(spec_register(names, name).0, name).0 == names.push(name),
{
    let after = spec_register(names, name).0;
    assert(after == names.push(name));
    assert(after[names.len() as int] == name);
    assert(registered(after, name));
}

/// Law: a successful registration is unrepeatable — once `name` is in the
/// registry, every later registration of `name` is refused and leaves the
/// registry unchanged.
pub proof fn lemma_no_reregistration(names: Seq<Seq<char>>, name: Seq<char>)
    requires
        registered(names, name),
    ensures
        !spec_register(names, name).1,
        spec_register(names, name).0 == names,
{
}

} // verus!
