//! The symbol table of one native module: a compile-time-fixed list of
//! function names, each with an optionally resolved native address.
//!
//! Population runs at most once per slot, behind the slot's one-shot gate. A
//! name the installed library does not export is tolerated at population time
//! (vendor version skew is expected) and becomes observable only when a
//! caller asks to dispatch through that very name.

use vstd::prelude::*;
use vstd::string::StringExecFns;
use crate::slot::GlobalLibrary;
use crate::slot::gate_closed_step;
use crate::slot::lemma_gate_closed_step;

verus! {

/// A dispatch was asked for a symbol the installed library does not export
/// (or the table was never populated). Calling through an absent address
/// would be undefined behavior, so the caller must treat this as fatal.
#[derive(Debug)]
pub struct MissingSymbol {
    /// The logical module whose table lacked the symbol.
    pub module: String,
    /// The name of the symbol that did not resolve.
    pub symbol: String,
}

impl MissingSymbol {
    /// The diagnostic shown when a caller invokes an unresolved symbol: it
    /// names the module and the symbol.
    pub fn message(&self) -> (r: String)
        ensures
            r@ == self.module@ + " doesn't export "@ + self.symbol@
                + ", or the library isn't loaded"@,
    {
        let mut s = String::new();
        s.append(self.module.as_str());
        s.append(" doesn't export ");
        s.append(self.symbol.as_str());
        s.append(", or the library isn't loaded");
        proof {
            assert(s@ =~= self.module@ + " doesn't export "@ + self.symbol@
                + ", or the library isn't loaded"@);
        }
        s
    }
}

/// One module's mapping from declared function names to resolved native
/// addresses. `addrs[i]` is the address resolved for `names[i]`, or `None`
/// where the installed library does not export that name.
pub struct SymbolTable {
    module: String,
    names: Vec<String>,
    addrs: Vec<Option<usize>>,
}

impl SymbolTable {
    /// The module name used in diagnostics.
    pub closed spec fn spec_module(&self) -> Seq<char> {
        self.module@
    }

    /// The declared symbol names, in table order.
    pub closed spec fn spec_names(&self) -> Seq<Seq<char>> {
        self.names@.map_values(|n: String| n@)
    }

    /// The resolved addresses, in table order.
    pub closed spec fn spec_addrs(&self) -> Seq<Option<usize>> {
        self.addrs@
    }

    /// The table's invariant: one address slot per declared name.
    pub open spec fn wf(&self) -> bool {
        self.spec_addrs().len() == self.spec_names().len()
    }

    /// A fresh table for `module`: every declared name present, every address
    /// still unresolved.
    pub fn new(module: String, names: Vec<String>) -> (r: Self)
        ensures
            r.wf(),
            r.spec_module() == module@,
            r.spec_names() == names@.map_values(|n: String| n@),
            r.spec_addrs().len() == names@.len(),
            forall|i: int| 0 <= i < names@.len() ==> r.spec_addrs()[i] is None,
    {
        let mut addrs: Vec<Option<usize>> = Vec::new();
        let mut i: usize = 0;
        while i < names.len()
            invariant
                i <= names.len(),
                addrs@.len() == i,
                forall|j: int| 0 <= j < i ==> addrs@[j] is None,
            decreases names.len() - i,
        {
            addrs.push(None);
            i = i + 1;
        }
        SymbolTable { module, names, addrs }
    }

    /// How many symbols the table declares.
    pub fn symbol_count(&self) -> (r: usize)
        ensures
            r == self.spec_names().len(),
    {
        self.names.len()
    }

    /// Whether the table is well formed: one address slot per declared name.
    /// Constructors establish this and population keeps it; unverified
    /// callers check it before asking for addresses.
    pub fn is_well_formed(&self) -> (r: bool)
        ensures
            r == self.wf(),
    {
        self.addrs.len() == self.names.len()
    }

    /// The declared name of symbol `i`, for resolving it against the handle.
    pub fn symbol_name(&self, i: usize) -> (r: &String)
        requires
            self.wf(),
            i < self.spec_names().len(),
        ensures
            r@ == self.spec_names()[i as int],
    {
        &self.names[i]
    }

    /// Per-symbol query: true only if the slot as a whole is loaded and this
    /// very name resolved. A table may be loaded as a whole while single
    /// version-gated names stay absent.
    pub fn symbol_is_loaded(&self, slot: &GlobalLibrary, i: usize) -> (r: bool)
        requires
            self.wf(),
            i < self.spec_names().len(),
        ensures
            r == (slot.spec_is_loaded() && self.spec_addrs()[i as int] is Some),
    {
        slot.is_loaded() && self.addrs[i].is_some()
    }

    /// Populate the table from resolution results, at most once per slot: the
    /// first call through an open gate stores the addresses and closes that
    /// gate; every later call leaves both slot and table exactly as they are.
    /// Returns whether this call was the one that populated.
    pub fn populate_once(
        &mut self,
        slot: &mut GlobalLibrary,
        addrs: Vec<Option<usize>>,
    ) -> (ran: bool)
        requires
            old(self).wf(),
            old(slot).handle_present(),
            addrs@.len() == old(self).spec_names().len(),
        ensures
            *final(slot) == populate_step(*old(slot), *old(self), addrs).0,
            *final(self) == populate_step(*old(slot), *old(self), addrs).1,
            final(slot).gate_complete(),
            final(slot).spec_handle() == old(slot).spec_handle(),
            final(slot).wf(),
            final(self).wf(),
            final(self).spec_module() == old(self).spec_module(),
            final(self).spec_names() == old(self).spec_names(),
            ran == !old(slot).gate_complete(),
            old(slot).gate_complete() ==> *final(self) == *old(self) && *final(slot) == *old(
                slot,
            ),
            !old(slot).gate_complete() ==> final(self).spec_addrs() == addrs@,
    {
        if slot.is_loaded() {
            false
        } else {
            self.addrs = addrs;
            slot.close_gate();
            true
        }
    }

    /// Hand out the address to call symbol `i` through. Succeeds exactly when
    /// the symbol resolved; otherwise reports the module and the symbol name,
    /// which the caller must treat as fatal rather than dispatch.
    pub fn addr_for_call(&self, i: usize) -> (r: Result<usize, MissingSymbol>)
        requires
            self.wf(),
            i < self.spec_names().len(),
        ensures
            r is Ok <==> self.spec_addrs()[i as int] is Some,
            r is Ok ==> self.spec_addrs()[i as int] == Some(r->Ok_0),
            r is Err ==> r->Err_0.module@ == self.spec_module() && r->Err_0.symbol@
                == self.spec_names()[i as int],
    {
        match self.addrs[i] {
            Some(a) => Ok(a),
            None => Err(
                MissingSymbol { module: self.module.clone(), symbol: self.names[i].clone() },
            ),
        }
    }
}

/// What one population attempt does to a slot and its table: through an open
/// gate it stores the addresses and closes it; against a closed one it
/// changes nothing at all.
pub closed spec fn populate_step(
    s: GlobalLibrary,
    t: SymbolTable,
    addrs: Vec<Option<usize>>,
) -> (GlobalLibrary, SymbolTable) {
    if s.gate_complete() {
        (s, t)
    } else {
        (gate_closed_step(s), SymbolTable { module: t.module, names: t.names, addrs })
    }
}

/// Law: population runs exactly once per slot. Whatever a second population
/// attempt brings, it leaves the slot and the table exactly as the first
/// attempt left them, and the first attempt through an open gate stores its
/// own addresses.
pub proof fn lemma_populate_exactly_once(
    s: GlobalLibrary,
    t: SymbolTable,
    a1: Vec<Option<usize>>,
    a2: Vec<Option<usize>>,
)
    ensures
        populate_step(
            populate_step(s, t, a1).0,
            populate_step(s, t, a1).1,
            a2,
        ) == populate_step(s, t, a1),
        !s.gate_complete() ==> populate_step(s, t, a1).1.spec_addrs() == a1@,
        populate_step(s, t, a1).0.gate_complete(),
        populate_step(s, t, a1).0.spec_handle() == s.spec_handle(),
{
    lemma_gate_closed_step(s);
}

/// Law: a loaded slot is stable. Once a slot reports loaded, no further
/// population attempt changes the slot or the table it guards, however many
/// follow and whatever addresses they carry.
pub proof fn lemma_loaded_table_is_stable(
    s: GlobalLibrary,
    t: SymbolTable,
    attempts: Seq<Vec<Option<usize>>>,
)
    requires
        s.spec_is_loaded(),
    ensures
        run_populations(s, t, attempts) == (s, t),
    decreases attempts.len(),
{
    if attempts.len() > 0 {
        lemma_loaded_table_is_stable(s, t, attempts.drop_first());
    }
}

/// The slot and table left behind by a whole sequence of population attempts,
/// applied in order.
pub open spec fn run_populations(
    s: GlobalLibrary,
    t: SymbolTable,
    attempts: Seq<Vec<Option<usize>>>,
) -> (GlobalLibrary, SymbolTable)
    decreases attempts.len(),
{
    if attempts.len() == 0 {
        (s, t)
    } else {
        run_populations(
            populate_step(s, t, attempts[0]).0,
            populate_step(s, t, attempts[0]).1,
            attempts.drop_first(),
        )
    }
}

} // verus!

