//! Modules: reusable registration units, and the assembly model.
//!
//! A module is a named, ordered list of provider entries. An application
//! composes a sequence of modules into one injector; the [`assemble`]
//! function is the mathematical model of that composition: entries register
//! in order, and the first entry whose identity is already bound aborts the
//! whole assembly with `ProviderAlreadyRegistered` — assembly is
//! all-or-nothing, no partial registry is ever exposed.

use vstd::prelude::*;

use crate::error::ErrorKind;
use crate::error::ErrorModel;
use crate::error::msg_provider_already_registered;
use crate::identity::scope_text;
use crate::provider::EntryModel;
use crate::provider::ProviderEntry;

verus! {

/// Mathematical view of a [`Module`].
pub ghost struct ModuleModel {
    pub name: Seq<char>,
    pub entries: Seq<EntryModel>,
}

/// A stateless registration unit: its only behaviour is to contribute zero
/// or more provider entries to a registry during assembly.
pub struct Module {
    pub name: String,
    pub entries: Vec<ProviderEntry>,
}

impl View for Module {
    type V = ModuleModel;

    open spec fn view(&self) -> ModuleModel {
        ModuleModel {
            name: self.name@,
            entries: self.entries@.map_values(|e: ProviderEntry| e@),
        }
    }
}

impl Module {
    /// Creates a module with no entries.
    pub fn new(name: &str) -> (r: Module)
        ensures
            r@.name == name@,
            r@.entries == Seq::<EntryModel>::empty(),
    {
        let r = Module { name: name.to_owned(), entries: Vec::new() };
        proof {
            assert(r@.entries =~= Seq::<EntryModel>::empty());
        }
        r
    }

    /// Contributes one provider entry. Duplicates are not detected here:
    /// assembly rejects them when the modules are composed.
    pub fn provide(&mut self, entry: ProviderEntry)
        ensures
            final(self)@.name == old(self)@.name,
            final(self)@.entries == old(self)@.entries.push(entry@),
    {
        self.entries.push(entry);
        proof {
            assert(self@.entries =~= old(self)@.entries.push(entry@));
        }
    }
}

/// The provider entries contributed by a sequence of modules, in
/// registration order.
pub open spec fn flatten_modules(mods: Seq<ModuleModel>) -> Seq<EntryModel>
    decreases mods.len(),
{
    if mods.len() == 0 {
        Seq::empty()
    } else {
        mods[0].entries + flatten_modules(mods.drop_first())
    }
}

/// The assembly model: registers `entries` in order into the provider map
/// `m`. The first entry whose identity is already bound aborts the whole
/// assembly, naming the identity and the scope of the existing
/// registration.
pub open spec fn assemble(m: Map<u64, EntryModel>, entries: Seq<EntryModel>) -> Result<
    Map<u64, EntryModel>,
    ErrorModel,
>
    decreases entries.len(),
{
    if entries.len() == 0 {
        Ok(m)
    } else {
        let e = entries[0];
        if m.contains_key(e.identity.id) {
            Err(
                ErrorModel {
                    kind: ErrorKind::ProviderAlreadyRegistered,
                    message: msg_provider_already_registered(
                        e.identity.name,
                        scope_text(m[e.identity.id].scope),
                    ),
                },
            )
        } else {
            assemble(m.insert(e.identity.id, e), entries.drop_first())
        }
    }
}

/// No two of `entries` bind the same identity.
pub open spec fn distinct_entry_ids(entries: Seq<EntryModel>) -> bool {
    forall|i: int, j: int|
        0 <= i < j < entries.len() ==> (#[trigger] entries[i]).identity.id != (
        #[trigger] entries[j]).identity.id
}

/// Assembly succeeds exactly when no identity is bound twice: not twice
/// among the contributed entries, and not against an identity already in
/// the starting map. When it fails, the error is always
/// `ProviderAlreadyRegistered`.
pub proof fn lemma_assembly_rejects_duplicates(m: Map<u64, EntryModel>, entries: Seq<EntryModel>)
    ensures
        assemble(m, entries) is Ok <==> (distinct_entry_ids(entries) && forall|i: int|
            0 <= i < entries.len() ==> !m.contains_key((#[trigger] entries[i]).identity.id)),
        assemble(m, entries) is Err ==> assemble(m, entries)->Err_0.kind
            == ErrorKind::ProviderAlreadyRegistered,
    decreases entries.len(),
{
    if entries.len() == 0 {
    } else {
        let e = entries[0];
        let rest = entries.drop_first();
        if m.contains_key(e.identity.id) {
        } else {
            let m1 = m.insert(e.identity.id, e);
            lemma_assembly_rejects_duplicates(m1, rest);
            assert forall|i: int| 0 <= i < rest.len() implies rest[i] == entries[i + 1] by {}
            if assemble(m, entries) is Ok {
                assert(distinct_entry_ids(rest));
                assert forall|i: int, j: int| 0 <= i < j < entries.len() implies (
                #[trigger] entries[i]).identity.id != (#[trigger] entries[j]).identity.id by {
                    if i == 0 {
                        assert(rest[j - 1] == entries[j]);
                        assert(!m1.contains_key(rest[j - 1].identity.id));
                    } else {
                        assert(rest[i - 1] == entries[i] && rest[j - 1] == entries[j]);
                    }
                }
                assert forall|i: int| 0 <= i < entries.len() implies !m.contains_key((
                #[trigger] entries[i]).identity.id) by {
                    if i > 0 {
                        assert(rest[i - 1] == entries[i]);
                        assert(!m1.contains_key(rest[i - 1].identity.id));
                    }
                }
            }
            if distinct_entry_ids(entries) && (forall|i: int|
                0 <= i < entries.len() ==> !m.contains_key(
                    (#[trigger] entries[i]).identity.id,
                )) {
                assert forall|i: int| 0 <= i < rest.len() implies !m1.contains_key((
                #[trigger] rest[i]).identity.id) by {
                    assert(rest[i] == entries[i + 1]);
                    assert(entries[0].identity.id != entries[i + 1].identity.id);
                }
                assert(distinct_entry_ids(rest));
                assert(assemble(m1, rest) is Ok);
            }
        }
    }
}

} // verus!
