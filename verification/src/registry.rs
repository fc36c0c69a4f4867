//! The binding registry: it collects function declarations under unique
//! names and closes them into a module surface.

use crate::declaration::{
    clone_declarations, declaration_of, declaration_views, DeclarationView, FunctionDeclaration,
    Parameter,
};
use crate::error::{answer_view, BindingError, BindingErrorView};
use crate::type_tag::TypeTag;
use vstd::prelude::*;

verus! {

/// Whether a declaration of the given name is among `declarations`.
pub open spec fn has_name(declarations: Seq<DeclarationView>, name: Seq<char>) -> bool {
    exists|i: int| 0 <= i < declarations.len() && #[trigger] declarations[i].name == name
}

/// Whether no two of `declarations` have the same name.
pub open spec fn names_unique(declarations: Seq<DeclarationView>) -> bool {
    forall|i: int, j: int|
        0 <= i < j < declarations.len() ==> #[trigger] declarations[i].name
            != #[trigger] declarations[j].name
}

/// The mathematical value of a [`ModuleSurface`]: the name under which the
/// host imports the module, and its declarations in the order of their
/// registration.
pub struct SurfaceView {
    pub module: Seq<char>,
    pub declarations: Seq<DeclarationView>,
}

/// The mathematical value of a [`Registry`].
pub struct RegistryView {
    pub module: Seq<char>,
    pub declarations: Seq<DeclarationView>,
    pub closed: bool,
}

/// The registry of a module in which nothing is declared yet.
pub open spec fn fresh(module: Seq<char>) -> RegistryView {
    RegistryView { module, declarations: Seq::empty(), closed: false }
}

/// What `declare` answers for the declaration `d` in the registry `r`.
pub open spec fn declare_outcome(r: RegistryView, d: DeclarationView) -> Result<
    (),
    BindingErrorView,
> {
    if r.closed {
        Err(BindingErrorView::SurfaceClosed { refused: Some(d.name) })
    } else if has_name(r.declarations, d.name) {
        Err(BindingErrorView::DuplicateName { name: d.name })
    } else {
        Ok(())
    }
}

/// The registry that `declare` leaves: `d` is added behind the others where
/// the call succeeds, and nothing changes where it fails.
pub open spec fn after_declare(r: RegistryView, d: DeclarationView) -> RegistryView {
    if declare_outcome(r, d) is Ok {
        RegistryView { declarations: r.declarations.push(d), ..r }
    } else {
        r
    }
}

/// What `finalize` answers in the registry `r`.
pub open spec fn finalize_outcome(r: RegistryView) -> Result<SurfaceView, BindingErrorView> {
    if r.closed {
        Err(BindingErrorView::SurfaceClosed { refused: None })
    } else {
        Ok(SurfaceView { module: r.module, declarations: r.declarations })
    }
}

/// The registry that `finalize` leaves: closed, with the same declarations.
/// A registry that was closed already is left as it was.
pub open spec fn after_finalize(r: RegistryView) -> RegistryView {
    RegistryView { closed: true, ..r }
}

/// The registry that a run of `declare` calls leaves: one call for each of
/// `ds`, in order, starting in the registry `r`.
pub open spec fn declare_each(r: RegistryView, ds: Seq<DeclarationView>) -> RegistryView
    decreases ds.len(),
{
    if ds.len() == 0 {
        r
    } else {
        after_declare(declare_each(r, ds.drop_last()), ds.last())
    }
}

/// Whether `ds[m]` is the first of `ds` under its name.
pub open spec fn is_first_under_name(ds: Seq<DeclarationView>, m: int) -> bool {
    &&& 0 <= m < ds.len()
    &&& forall|e: int| 0 <= e < m ==> (#[trigger] ds[e]).name != ds[m].name
}

/// Whether `kept` holds, under unique names, the first of `ds` under each
/// name and nothing else.
spec fn keeps_first_under_each_name(kept: Seq<DeclarationView>, ds: Seq<DeclarationView>) -> bool {
    &&& names_unique(kept)
    &&& forall|m: int| 0 <= m < ds.len() ==> has_name(kept, (#[trigger] ds[m]).name)
    &&& forall|k: int|
        0 <= k < kept.len() ==> exists|m: int|
            is_first_under_name(ds, m) && #[trigger] ds[m] == #[trigger] kept[k]
}

/// A run of `declare` calls from a fresh registry leaves it open, and keeps
/// the first declaration under each name.
proof fn lemma_run_keeps_first(module: Seq<char>, ds: Seq<DeclarationView>)
    ensures
        declare_each(fresh(module), ds).module == module,
        !declare_each(fresh(module), ds).closed,
        keeps_first_under_each_name(declare_each(fresh(module), ds).declarations, ds),
    decreases ds.len(),
{
    if ds.len() > 0 {
        let head = ds.drop_last();
        let d = ds.last();
        lemma_run_keeps_first(module, head);
        let before = declare_each(fresh(module), head);
        let after = declare_each(fresh(module), ds);
        assert(after == after_declare(before, d));
        assert forall|m: int| 0 <= m < head.len() implies is_first_under_name(head, m)
            == is_first_under_name(ds, m) by {
            assert(forall|e: int| 0 <= e <= m ==> head[e] == ds[e]);
        }
        if has_name(before.declarations, d.name) {
            assert(after == before);
            assert forall|m: int| 0 <= m < ds.len() implies has_name(
                after.declarations,
                (#[trigger] ds[m]).name,
            ) by {
                if m < head.len() {
                    assert(ds[m] == head[m]);
                }
            }
            assert forall|k: int| 0 <= k < after.declarations.len() implies exists|m: int|
                is_first_under_name(ds, m) && #[trigger] ds[m] == #[trigger] after.declarations[k] by {
                let m = choose|m: int|
                    is_first_under_name(head, m) && #[trigger] head[m] == before.declarations[k];
                assert(is_first_under_name(ds, m) && ds[m] == after.declarations[k]);
            }
        } else {
            let n = before.declarations.len() as int;
            assert(after.declarations == before.declarations.push(d));
            assert forall|m: int| 0 <= m < ds.len() implies has_name(
                after.declarations,
                (#[trigger] ds[m]).name,
            ) by {
                if m < head.len() {
                    assert(ds[m] == head[m]);
                    let k = choose|k: int|
                        0 <= k < before.declarations.len() && #[trigger] before.declarations[k].name
                            == head[m].name;
                    assert(after.declarations[k].name == ds[m].name);
                } else {
                    assert(after.declarations[n].name == ds[m].name);
                }
            }
            assert(is_first_under_name(ds, ds.len() - 1)) by {
                assert forall|e: int| 0 <= e < ds.len() - 1 implies (#[trigger] ds[e]).name
                    != d.name by {
                    assert(has_name(before.declarations, head[e].name));
                }
            }
            assert forall|k: int| 0 <= k < after.declarations.len() implies exists|m: int|
                is_first_under_name(ds, m) && #[trigger] ds[m] == #[trigger] after.declarations[k] by {
                if k < n {
                    let m = choose|m: int|
                        is_first_under_name(head, m) && #[trigger] head[m]
                            == before.declarations[k];
                    assert(is_first_under_name(ds, m) && ds[m] == after.declarations[k]);
                } else {
                    let m = ds.len() - 1;
                    assert(is_first_under_name(ds, m) && ds[m] == after.declarations[k]);
                }
            }
            assert(names_unique(after.declarations)) by {
                assert forall|a: int, b: int| 0 <= a < b < after.declarations.len() implies (
                #[trigger] after.declarations[a]).name != (#[trigger] after.declarations[b]).name by {
                    if b < n {
                        assert(before.declarations[a].name != before.declarations[b].name);
                    } else {
                        assert(before.declarations[a].name != d.name);
                    }
                }
            }
        }
    }
}

/// A run of `declare` calls under names that are all different, from a fresh
/// registry, registers every declaration in the order of the calls.
proof fn lemma_run_of_distinct(module: Seq<char>, ds: Seq<DeclarationView>)
    requires
        names_unique(ds),
    ensures
        declare_each(fresh(module), ds) == (RegistryView {
            module,
            declarations: ds,
            closed: false,
        }),
    decreases ds.len(),
{
    if ds.len() == 0 {
        assert(ds =~= Seq::empty());
    } else {
        let head = ds.drop_last();
        lemma_run_of_distinct(module, head);
        assert(!has_name(head, ds.last().name));
        assert(head.push(ds.last()) =~= ds);
    }
}

/// Where every call of a run of `declare` calls on a fresh registry gives a
/// name of its own, every call succeeds, and `finalize` then succeeds with
/// the surface that holds exactly the declarations of the calls, in their
/// order.
pub proof fn lemma_distinct_names_all_registered(module: Seq<char>, ds: Seq<DeclarationView>)
    requires
        names_unique(ds),
    ensures
        forall|k: int|
            0 <= k < ds.len() ==> declare_outcome(
                declare_each(fresh(module), ds.take(k)),
                #[trigger] ds[k],
            ) is Ok,
        finalize_outcome(declare_each(fresh(module), ds)) == Ok::<SurfaceView, BindingErrorView>(
            SurfaceView { module, declarations: ds },
        ),
{
    lemma_run_of_distinct(module, ds);
    assert forall|k: int| 0 <= k < ds.len() implies declare_outcome(
        declare_each(fresh(module), ds.take(k)),
        #[trigger] ds[k],
    ) is Ok by {
        lemma_run_of_distinct(module, ds.take(k));
        assert(!has_name(ds.take(k), ds[k].name));
    }
}

/// Where a run of `declare` calls on a fresh registry gives a name a second
/// time, the later call fails with the error of a duplicate name and leaves
/// the registry as it was. Where the earlier call is the first under that
/// name, its declaration is the one that the registry holds under the name,
/// whatever the run goes on to declare.
pub proof fn lemma_repeated_name_refused(
    module: Seq<char>,
    ds: Seq<DeclarationView>,
    i: int,
    j: int,
)
    requires
        0 <= i < j < ds.len(),
        ds[i].name == ds[j].name,
    ensures
        declare_outcome(declare_each(fresh(module), ds.take(j)), ds[j]) == Err::<
            (),
            BindingErrorView,
        >(BindingErrorView::DuplicateName { name: ds[j].name }),
        declare_each(fresh(module), ds.take(j + 1)) == declare_each(fresh(module), ds.take(j)),
        has_name(declare_each(fresh(module), ds).declarations, ds[i].name),
        is_first_under_name(ds, i) ==> forall|k: int|
            0 <= k < declare_each(fresh(module), ds).declarations.len() && (
            #[trigger] declare_each(fresh(module), ds).declarations[k]).name == ds[i].name
                ==> declare_each(fresh(module), ds).declarations[k] == ds[i],
{
    let before = declare_each(fresh(module), ds.take(j));
    lemma_run_keeps_first(module, ds.take(j));
    assert(ds.take(j)[i] == ds[i]);
    assert(has_name(before.declarations, ds[j].name));
    assert(ds.take(j + 1).drop_last() =~= ds.take(j));
    assert(ds.take(j + 1).last() == ds[j]);
    let last = declare_each(fresh(module), ds);
    lemma_run_keeps_first(module, ds);
    if is_first_under_name(ds, i) {
        assert forall|k: int|
            0 <= k < last.declarations.len() && (#[trigger] last.declarations[k]).name
                == ds[i].name implies last.declarations[k] == ds[i] by {
            let m = choose|m: int|
                is_first_under_name(ds, m) && #[trigger] ds[m] == last.declarations[k];
            if m < i {
                assert(ds[m].name != ds[i].name);
            } else if i < m {
                assert(ds[i].name != ds[m].name);
            }
        }
    }
}

/// The set of entry points that one importable module exposes to its host.
///
/// A surface is closed: nothing is added to it or taken from it, and no two
/// of its declarations have the same name.
#[derive(Debug, PartialEq, Eq)]
pub struct ModuleSurface {
    module: String,
    declarations: Vec<FunctionDeclaration>,
}

impl View for ModuleSurface {
    type V = SurfaceView;

    closed spec fn view(&self) -> SurfaceView {
        SurfaceView { module: self.module@, declarations: declaration_views(self.declarations@) }
    }
}

impl ModuleSurface {
    #[verifier::type_invariant]
    spec fn well_formed(self) -> bool {
        names_unique(declaration_views(self.declarations@))
    }

    /// The name under which the host imports the module.
    pub fn module(&self) -> (module: &String)
        ensures
            module@ == self@.module,
    {
        &self.module
    }

    /// The number of declarations.
    pub fn len(&self) -> (n: usize)
        ensures
            n == self@.declarations.len(),
    {
        self.declarations.len()
    }

    /// The declarations, in the order of their registration. No two of them
    /// have the same name.
    pub fn declarations(&self) -> (declarations: &Vec<FunctionDeclaration>)
        ensures
            declaration_views(declarations@) == self@.declarations,
            names_unique(self@.declarations),
    {
        proof {
            use_type_invariant(self);
        }
        &self.declarations
    }
}

/// The value of what `finalize` returns.
pub open spec fn surface_view(outcome: Result<ModuleSurface, BindingError>) -> Result<
    SurfaceView,
    BindingErrorView,
> {
    match outcome {
        Ok(surface) => Ok(surface@),
        Err(error) => Err(error@),
    }
}

/// The builder of a module surface.
///
/// Functions are declared one by one, each under a name of its own, and
/// `finalize` closes the registry and hands out the surface.
#[derive(Debug)]
pub struct Registry {
    module: String,
    declarations: Vec<FunctionDeclaration>,
    closed: bool,
}

impl View for Registry {
    type V = RegistryView;

    closed spec fn view(&self) -> RegistryView {
        RegistryView {
            module: self.module@,
            declarations: declaration_views(self.declarations@),
            closed: self.closed,
        }
    }
}

impl Registry {
    #[verifier::type_invariant]
    spec fn well_formed(self) -> bool {
        names_unique(declaration_views(self.declarations@))
    }

    /// An open registry for the module of the given name, with no declaration.
    pub fn new(module: &str) -> (registry: Registry)
        ensures
            registry@ == fresh(module@),
    {
        let registry = Registry {
            module: String::from_str(module),
            declarations: Vec::new(),
            closed: false,
        };
        assert(declaration_views(registry.declarations@) =~= Seq::empty());
        registry
    }

    /// Whether `finalize` has closed the registry.
    pub fn is_closed(&self) -> (closed: bool)
        ensures
            closed == self@.closed,
    {
        self.closed
    }

    /// The number of declarations registered so far.
    pub fn len(&self) -> (n: usize)
        ensures
            n == self@.declarations.len(),
    {
        self.declarations.len()
    }

    /// Whether a function of the given name is declared.
    pub fn contains(&self, name: &str) -> (found: bool)
        ensures
            found == has_name(self@.declarations, name@),
    {
        let wanted = String::from_str(name);
        let mut i: usize = 0;
        while i < self.declarations.len()
            invariant
                i <= self.declarations.len(),
                wanted@ == name@,
                forall|k: int| 0 <= k < i ==> self.declarations[k]@.name != name@,
            decreases self.declarations.len() - i,
        {
            if *self.declarations[i].name() == wanted {
                assert(declaration_views(self.declarations@)[i as int].name == name@);
                return true;
            }
            i += 1;
        }
        false
    }

    /// Registers one function declaration.
    ///
    /// Fails in a closed registry, and where a function of that name is
    /// already declared. A call that fails leaves the registry as it was.
    pub fn declare(
        &mut self,
        name: &str,
        implementation: usize,
        parameters: Vec<Parameter>,
        return_type: TypeTag,
    ) -> (outcome: Result<(), BindingError>)
        ensures
            answer_view(outcome) == declare_outcome(
                old(self)@,
                declaration_of(name@, implementation, parameters@, return_type),
            ),
            final(self)@ == after_declare(
                old(self)@,
                declaration_of(name@, implementation, parameters@, return_type),
            ),
            names_unique(final(self)@.declarations),
    {
        proof {
            use_type_invariant(&*self);
        }
        if self.closed {
            return Err(BindingError::SurfaceClosed { refused: Some(String::from_str(name)) });
        }
        if self.contains(name) {
            return Err(BindingError::DuplicateName { name: String::from_str(name) });
        }
        let declaration = FunctionDeclaration::new(name, implementation, parameters, return_type);
        let ghost before = declaration_views(self.declarations@);
        // The list is taken out of the registry while it grows: the registry
        // has to be well formed at every moment it is whole.
        let mut declarations: Vec<FunctionDeclaration> = Vec::new();
        core::mem::swap(&mut self.declarations, &mut declarations);
        declarations.push(declaration);
        assert(declaration_views(declarations@) =~= before.push(declaration@));
        core::mem::swap(&mut self.declarations, &mut declarations);
        Ok(())
    }

    /// Closes the registry and hands out the surface of what was declared.
    ///
    /// Fails in a registry that is closed already, which it leaves as it was.
    pub fn finalize(&mut self) -> (outcome: Result<ModuleSurface, BindingError>)
        ensures
            surface_view(outcome) == finalize_outcome(old(self)@),
            final(self)@ == after_finalize(old(self)@),
            names_unique(final(self)@.declarations),
    {
        proof {
            use_type_invariant(&*self);
        }
        if self.closed {
            return Err(BindingError::SurfaceClosed { refused: None });
        }
        let surface = ModuleSurface {
            module: self.module.clone(),
            declarations: clone_declarations(&self.declarations),
        };
        self.closed = true;
        Ok(surface)
    }
}

} // verus!
