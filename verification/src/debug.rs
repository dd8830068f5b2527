//! The mirror of the type registry in debug information.
use vstd::prelude::*;
use std::collections::HashMap;
use inkwell::debug_info::DICompileUnit;
use inkwell::debug_info::DIType;
use inkwell::debug_info::DebugInfoBuilder;
use inkwell::values::FunctionValue;
use crate::backend::Subprogram;
use crate::backend::SubprogramView;
use crate::llvm::create_basic_type;
use crate::llvm::create_subprogram;
use crate::llvm::create_subroutine_type;
use crate::llvm::set_subprogram;

verus! {

/// The encoding of a debug type that has none.
pub const NO_ENCODING: u32 = 0;

/// The flag of LLVM that marks a debug type or a subprogram as public.
pub const FLAG_PUBLIC: i32 = 3;

/// A debug type: its handle, and the size, the encoding and the flags that
/// it was made with.
#[derive(Clone, Copy)]
pub struct DebugType<'ctx> {
    pub handle: DIType<'ctx>,
    pub size_in_bits: u64,
    pub encoding: u32,
    pub flags: i32,
}

/// The debug information of one module: the objects that make it and one
/// debug type for each declared type, under the same number.
pub struct DebugMirror<'ctx> {
    pub builder: DebugInfoBuilder<'ctx>,
    pub unit: DICompileUnit<'ctx>,
    pub types: HashMap<u64, DebugType<'ctx>>,
}

/// The sizes of a list of debug types.
pub open spec fn sizes(types: Seq<DebugType>) -> Seq<u64> {
    types.map_values(|ty: DebugType| ty.size_in_bits)
}

impl<'ctx> DebugMirror<'ctx> {
    /// A mirror without any type.
    pub fn new(builder: DebugInfoBuilder<'ctx>, unit: DICompileUnit<'ctx>) -> (mirror: DebugMirror<
        'ctx,
    >)
        ensures
            mirror.builder == builder,
            mirror.unit == unit,
            mirror.types@ == Map::<u64, DebugType<'ctx>>::empty(),
    {
        DebugMirror { builder, unit, types: HashMap::new() }
    }

    /// Files under `id` a new basic debug type of the given name and size,
    /// public and without encoding. A type needs a name: with an empty one
    /// nothing is done.
    pub fn declare_basic_type(&mut self, id: u64, name: &str, size_in_bits: u64) -> (declared: bool)
        ensures
            declared <==> name@.len() > 0,
            final(self).builder == old(self).builder,
            final(self).unit == old(self).unit,
            declared ==> final(self).types@.dom() == old(self).types@.dom().insert(id),
            declared ==> final(self).types@[id].size_in_bits == size_in_bits,
            declared ==> final(self).types@[id].encoding == NO_ENCODING,
            declared ==> final(self).types@[id].flags == FLAG_PUBLIC,
            declared ==> forall|other: u64|
                other != id && old(self).types@.contains_key(other) ==> final(self).types@[other]
                    == old(self).types@[other],
            !declared ==> final(self).types == old(self).types,
    {
        match create_basic_type(&self.builder, name, size_in_bits, NO_ENCODING, FLAG_PUBLIC) {
            Some(handle) => {
                self.types.insert(
                    id,
                    DebugType { handle, size_in_bits, encoding: NO_ENCODING, flags: FLAG_PUBLIC },
                );
                true
            },
            None => false,
        }
    }

    /// What the debug information says of a public function of the given
    /// name, line and signature.
    pub fn subprogram(name: &str, line: u32, ret: &DebugType<'ctx>, params: &Vec<DebugType<'ctx>>) -> (subprogram:
        Subprogram)
        ensures
            subprogram@ == (SubprogramView {
                name: name@,
                line,
                ret_size: ret.size_in_bits,
                param_sizes: sizes(params@),
                flags: FLAG_PUBLIC,
            }),
    {
        let mut param_sizes: Vec<u64> = Vec::new();
        let mut i: usize = 0;
        while i < params.len()
            invariant
                i <= params@.len(),
                param_sizes@ == sizes(params@.take(i as int)),
            decreases params@.len() - i,
        {
            param_sizes.push(params[i].size_in_bits);
            i = i + 1;
        }
        assert(params@.take(i as int) == params@);
        Subprogram {
            name: name.to_owned(),
            line,
            ret_size: ret.size_in_bits,
            param_sizes,
            flags: FLAG_PUBLIC,
        }
    }

    /// Attaches to `function` the debug description of a function of the
    /// given name, line and signature: public, local to the unit, a
    /// definition, not optimized.
    pub(crate) fn describe(
        &self,
        function: FunctionValue<'ctx>,
        name: &str,
        line: u32,
        ret: &DebugType<'ctx>,
        params: &Vec<DebugType<'ctx>>,
    )
        requires
            params@.len() < u32::MAX,
    {
        let mut handles: Vec<DIType<'ctx>> = Vec::new();
        let mut i: usize = 0;
        while i < params.len()
            invariant
                i <= params@.len(),
                handles@.len() == i,
            decreases params@.len() - i,
        {
            handles.push(params[i].handle);
            i = i + 1;
        }
        let ty = create_subroutine_type(&self.builder, &self.unit, ret.handle, &handles, FLAG_PUBLIC);
        let subprogram = create_subprogram(
            &self.builder,
            &self.unit,
            name,
            line,
            ty,
            true,
            true,
            FLAG_PUBLIC,
            false,
        );
        set_subprogram(function, subprogram);
    }
}

} // verus!
