//! The compiler: the module under construction, the registry of the types
//! declared so far and, when debug information is wanted, its mirror.
use vstd::prelude::*;
use std::collections::HashMap;
use inkwell::builder::Builder;
use inkwell::context::Context;
use inkwell::debug_info::DICompileUnit;
use inkwell::debug_info::DebugInfoBuilder;
use inkwell::module::Module;
use crate::backend::Backend;
use crate::backend::BackendType;
use crate::backend::Function;
use crate::debug::DebugMirror;
use crate::debug::DebugType;
use crate::debug::FLAG_PUBLIC;
use crate::debug::NO_ENCODING;
use crate::llvm::MAX_INT_BITS;
use crate::llvm::MIN_INT_BITS;

verus! {

/// A declared type that has a name: the name and the number of the type.
pub struct NamedType {
    pub name: String,
    pub id: u64,
}

/// The number of the type that was last declared under `name`.
pub open spec fn named_type(names: Seq<NamedType>, name: Seq<char>) -> Option<u64>
    decreases names.len(),
{
    if names.len() == 0 {
        None
    } else if names.last().name@ == name {
        Some(names.last().id)
    } else {
        named_type(names.drop_last(), name)
    }
}

/// A type that is found under a name is in the list of names.
pub proof fn lemma_named_type_is_listed(names: Seq<NamedType>, name: Seq<char>)
    ensures
        named_type(names, name) matches Some(id) ==> exists|i: int|
            0 <= i < names.len() && (#[trigger] names[i]).id == id && names[i].name@ == name,
    decreases names.len(),
{
    if names.len() > 0 && names.last().name@ != name {
        lemma_named_type_is_listed(names.drop_last(), name);
    }
}

/// Whether a declaration has a debug name that debug information can be
/// filed under: one that is there and not empty.
pub open spec fn has_debug_name(debug_name: Option<String>) -> bool {
    debug_name matches Some(name) && name@.len() > 0
}

/// The compiler of one program.
pub struct Compiler<'ctx> {
    /// The mirror of the registry in debug information, where it is wanted.
    /// It stands first because it has to be dropped before the module.
    pub debug: Option<DebugMirror<'ctx>>,
    /// The module under construction.
    pub backend: Backend<'ctx>,
    /// The registry: the backend type of each declared type, by its number.
    pub types: HashMap<u64, BackendType<'ctx>>,
    /// The declared types that have a name, in the order of declaration.
    pub type_names: Vec<NamedType>,
    /// The source line that debug information is attached to.
    pub current_line_estimate: u32,
}

impl<'ctx> Compiler<'ctx> {
    /// The debug types filed so far, by the number of the type; none where
    /// no debug information is wanted.
    pub open spec fn debug_types(&self) -> Map<u64, DebugType<'ctx>> {
        match self.debug {
            Some(mirror) => mirror.types@,
            None => Map::empty(),
        }
    }

    /// Whether the debug information agrees with the registry and the
    /// module. Where it is wanted, each declared type has a debug type under
    /// the same number, public, without encoding and of the size of its
    /// backend type; no other debug type exists; and each emitted function
    /// has debug information that agrees with its signature. Where it is not
    /// wanted, there is none.
    pub open spec fn mirror_consistent(&self) -> bool {
        match self.debug {
            Some(mirror) => {
                &&& mirror.types@.dom() == self.types@.dom()
                &&& forall|id: u64| #[trigger]
                    self.types@.contains_key(id) ==> {
                        &&& mirror.types@[id].size_in_bits == self.types@[id].bits
                        &&& mirror.types@[id].encoding == NO_ENCODING
                        &&& mirror.types@[id].flags == FLAG_PUBLIC
                    }
                &&& forall|i: int|
                    0 <= i < self.backend.lowered().len() ==> {
                        &&& (#[trigger] self.backend.lowered()[i]).subprogram is Some
                        &&& self.backend.lowered()[i].debug_matches()
                    }
            },
            None => forall|i: int|
                0 <= i < self.backend.lowered().len() ==> (#[trigger] self.backend.lowered()[
                    i
                ]).subprogram is None,
        }
    }

    /// The invariant of the compiler: the backend is well formed, every type
    /// of the registry has a width that LLVM has, every name in the list of
    /// names belongs to a type of the registry, and the debug information is
    /// consistent.
    pub open spec fn well_formed(&self) -> bool {
        &&& self.backend.well_formed()
        &&& forall|id: u64| #[trigger]
            self.types@.contains_key(id) ==> MIN_INT_BITS <= self.types@[id].bits <= MAX_INT_BITS
        &&& forall|i: int|
            0 <= i < self.type_names@.len() ==> self.types@.contains_key(
                (#[trigger] self.type_names@[i]).id,
            )
        &&& self.mirror_consistent()
    }

    /// The number of the type that was last declared under `name`.
    pub open spec fn type_named(&self, name: Seq<char>) -> Option<u64> {
        named_type(self.type_names@, name)
    }

    /// A compiler that emits into `module` through `builder`, with an empty
    /// registry. Debug information is kept if and only if `debug` is given.
    pub fn new(
        context: &'ctx Context,
        module: Module<'ctx>,
        builder: Builder<'ctx>,
        debug: Option<(DebugInfoBuilder<'ctx>, DICompileUnit<'ctx>)>,
    ) -> (compiler: Compiler<'ctx>)
        ensures
            compiler.well_formed(),
            compiler.backend.module == module,
            compiler.backend.lowered() == Seq::<crate::backend::FunctionView>::empty(),
            compiler.types@ == Map::<u64, BackendType<'ctx>>::empty(),
            compiler.type_names@ == Seq::<NamedType>::empty(),
            compiler.debug is Some <==> debug is Some,
            compiler.debug_types() == Map::<u64, DebugType<'ctx>>::empty(),
            compiler.current_line_estimate == 0,
    {
        let debug = match debug {
            Some((builder, unit)) => Some(DebugMirror::new(builder, unit)),
            None => None,
        };
        Compiler {
            debug,
            backend: Backend::new(context, module, builder),
            types: HashMap::new(),
            type_names: Vec::new(),
            current_line_estimate: 0,
        }
    }

    /// The LLVM module, to print, verify or run it.
    pub fn module(&self) -> (module: &Module<'ctx>)
        ensures
            module == &self.backend.module,
    {
        self.backend.module()
    }

    /// The records of the functions emitted so far.
    pub fn functions(&self) -> (functions: &Vec<Function>)
        ensures
            functions == &self.backend.functions,
    {
        self.backend.functions()
    }

    /// Whether debug information is kept.
    pub fn debug_active(&self) -> (active: bool)
        ensures
            active <==> self.debug is Some,
    {
        self.debug.is_some()
    }

    /// The backend type declared under `id`.
    pub fn type_of(&self, id: u64) -> (ty: Option<BackendType<'ctx>>)
        ensures
            ty == if self.types@.contains_key(id) {
                Some(self.types@[id])
            } else {
                None
            },
    {
        match self.types.get(&id) {
            Some(ty) => Some(*ty),
            None => None,
        }
    }

    /// The debug type filed under `id`.
    pub fn debug_type_of(&self, id: u64) -> (ty: Option<DebugType<'ctx>>)
        ensures
            ty == if self.debug_types().contains_key(id) {
                Some(self.debug_types()[id])
            } else {
                None
            },
    {
        match &self.debug {
            Some(mirror) => match mirror.types.get(&id) {
                Some(ty) => Some(*ty),
                None => None,
            },
            None => None,
        }
    }

    /// While debug information is kept, every declared type has a debug type
    /// under its number, public, without encoding and of the size of its
    /// backend type, and the mirror holds no other debug type.
    pub proof fn lemma_active_mirror_matches_registry(&self, id: u64)
        requires
            self.well_formed(),
            self.debug is Some,
        ensures
            self.debug_types().contains_key(id) <==> self.types@.contains_key(id),
            self.types@.contains_key(id) ==> self.debug_types()[id].size_in_bits
                == self.types@[id].bits,
            self.types@.contains_key(id) ==> self.debug_types()[id].encoding == NO_ENCODING,
            self.types@.contains_key(id) ==> self.debug_types()[id].flags == FLAG_PUBLIC,
    {
    }

    /// While debug information is kept, every function that the compiler
    /// has emitted has a subprogram, and the subprogram has the name of the
    /// function and one size for each parameter and for the result, each the
    /// width of the type it stands for.
    pub proof fn lemma_active_mirror_matches_functions(&self, i: int)
        requires
            self.well_formed(),
            self.debug is Some,
            0 <= i < self.backend.lowered().len(),
        ensures
            self.backend.lowered()[i].subprogram matches Some(subprogram) && {
                &&& subprogram.flags == FLAG_PUBLIC
                &&& subprogram.name == self.backend.lowered()[i].name
                &&& subprogram.ret_size == self.backend.lowered()[i].ret_bits
                &&& subprogram.param_sizes.len() == self.backend.lowered()[i].param_bits.len()
                &&& forall|k: int|
                    0 <= k < subprogram.param_sizes.len() ==> #[trigger] subprogram.param_sizes[k]
                        == self.backend.lowered()[i].param_bits[k]
            },
    {
    }

    /// While no debug information is kept, there is none: no debug type, and
    /// no subprogram on any function.
    pub proof fn lemma_inactive_mirror_is_absent(&self)
        requires
            self.well_formed(),
            self.debug is None,
        ensures
            self.debug_types() == Map::<u64, DebugType<'ctx>>::empty(),
            forall|i: int|
                0 <= i < self.backend.lowered().len() ==> (#[trigger] self.backend.lowered()[
                    i
                ]).subprogram is None,
    {
    }

    /// The scaffolding of `libfunc` records its functions without debug
    /// information. While none is kept, a compiler whose backend it has
    /// added a function to is as well formed as before.
    pub proof fn lemma_scaffolding_keeps_inactive_mirror(&self, after: &Compiler<'ctx>)
        requires
            self.well_formed(),
            self.debug is None,
            after.debug is None,
            after.backend.well_formed(),
            after.types == self.types,
            after.type_names == self.type_names,
            after.backend.lowered().len() == self.backend.lowered().len() + 1,
            after.backend.lowered().drop_last() == self.backend.lowered(),
            after.backend.lowered().last().subprogram is None,
        ensures
            after.well_formed(),
    {
        assert forall|i: int| 0 <= i < after.backend.lowered().len() implies (
        #[trigger] after.backend.lowered()[i]).subprogram is None by {
            if i < self.backend.lowered().len() {
                assert(after.backend.lowered()[i] == after.backend.lowered().drop_last()[i]);
            }
        }
    }

    /// The number of the type that was last declared under `name`.
    pub fn type_id_by_name(&self, name: &str) -> (id: Option<u64>)
        ensures
            id == self.type_named(name@),
    {
        let wanted = name.to_owned();
        let mut i = self.type_names.len();
        assert(self.type_names@.take(i as int) == self.type_names@);
        while i > 0
            invariant
                i <= self.type_names@.len(),
                wanted@ == name@,
                self.type_named(name@) == named_type(self.type_names@.take(i as int), name@),
            decreases i,
        {
            i = i - 1;
            assert(self.type_names@.take(i + 1).drop_last() == self.type_names@.take(i as int));
            if self.type_names[i].name == wanted {
                return Some(self.type_names[i].id);
            }
        }
        None
    }
}

} // verus!
