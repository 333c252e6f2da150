//! The registry of struct types. Every declared struct is interned once,
//! under the key of its declaration; a struct may only name structs that
//! were registered before it, so the registered types are finite trees.

use vstd::prelude::*;
use crate::error::Error;
use crate::lang::{BaseType, StructId, Type};
use crate::layout::{
    align_up, alignment, end_offset, lemma_end_extends,
    lemma_end_monotone, lemma_round_up, size_of, struct_size, MAX_SIZE,
};

verus! {

/// The description of a struct type: its name and its fields in the order
/// of their declaration.
#[derive(Debug, Clone, PartialEq, Eq, Hash)]
pub struct StructTy {
    pub name: String,
    pub fields: Vec<(String, Type)>,
}

/// A registered struct: the key of its declaration, its description and
/// its size in a buffer.
#[derive(Debug, Clone, PartialEq, Eq, Hash)]
pub struct Entry {
    pub decl: u64,
    pub ty: StructTy,
    pub size: usize,
}

/// Whether a type is a sampler or an array of samplers.
pub open spec fn opaque(ty: Type) -> bool {
    match ty {
        Type::Base(b) => b is Sampler2d,
        Type::Array(b, _) => b is Sampler2d,
    }
}

/// Whether every struct that the fields name is among the first `n`.
pub open spec fn fields_within(fields: Seq<(String, Type)>, n: nat) -> bool {
    forall|i: int| 0 <= i < fields.len() ==> (#[trigger] fields[i]).1.within(n)
}

/// Whether no field is a sampler.
pub open spec fn fields_plain(fields: Seq<(String, Type)>) -> bool {
    forall|i: int| 0 <= i < fields.len() ==> !opaque((#[trigger] fields[i]).1)
}

/// What holds of the entry at position `i` of a registry.
pub open spec fn entry_ok(reg: Seq<Entry>, i: int) -> bool {
    &&& fields_within(reg[i].ty.fields@, i as nat)
    &&& fields_plain(reg[i].ty.fields@)
    &&& reg[i].size == struct_size(reg, reg[i].ty.fields@)
    &&& reg[i].size <= MAX_SIZE
}

/// What holds of every registry: each struct names only structs before it,
/// holds no sampler, has its size recorded, and no declaration is
/// registered twice.
pub open spec fn registry_wf(reg: Seq<Entry>) -> bool {
    &&& forall|i: int| 0 <= i < reg.len() ==> #[trigger] entry_ok(reg, i)
    &&& forall|i: int, j: int|
        0 <= i < reg.len() && 0 <= j < reg.len() && i != j ==> (#[trigger] reg[i]).decl != (
        #[trigger] reg[j]).decl
}

/// Whether a declaration with key `decl` is registered.
pub open spec fn registered(reg: Seq<Entry>, decl: u64) -> bool {
    exists|i: int| 0 <= i < reg.len() && (#[trigger] reg[i]).decl == decl
}

/// The position at which the declaration with key `decl` is registered.
pub open spec fn first_registered(reg: Seq<Entry>, decl: u64) -> int {
    choose|i: int| 0 <= i < reg.len() && (#[trigger] reg[i]).decl == decl
}

/// The result of registering a struct with key `decl` in `reg`.
pub open spec fn register_spec(reg: Seq<Entry>, decl: u64, ty: StructTy) -> Result<
    StructId,
    Error,
> {
    if registered(reg, decl) {
        Ok(StructId { index: first_registered(reg, decl) as usize })
    } else if !fields_within(ty.fields@, reg.len()) {
        Err(Error::UnregisteredStruct)
    } else if !fields_plain(ty.fields@) {
        Err(Error::SamplerField)
    } else if struct_size(reg, ty.fields@) > MAX_SIZE {
        Err(Error::TooLarge)
    } else {
        Ok(StructId { index: reg.len() as usize })
    }
}

/// The registry after registering a struct with key `decl` in `reg`.
pub open spec fn registered_spec(reg: Seq<Entry>, decl: u64, ty: StructTy) -> Seq<Entry> {
    if !registered(reg, decl) && register_spec(reg, decl, ty) is Ok {
        reg.push(Entry { decl, ty, size: struct_size(reg, ty.fields@) as usize })
    } else {
        reg
    }
}

/// A declaration is registered at one position only.
pub proof fn lemma_registered_once(reg: Seq<Entry>, decl: u64, i: int)
    requires
        registry_wf(reg),
        0 <= i < reg.len(),
        reg[i].decl == decl,
    ensures
        registered(reg, decl),
        first_registered(reg, decl) == i,
{
}

/// Registering keeps the invariant of the registry.
pub proof fn lemma_registered_wf(reg: Seq<Entry>, decl: u64, ty: StructTy)
    requires
        registry_wf(reg),
    ensures
        registry_wf(registered_spec(reg, decl, ty)),
{
    let more = registered_spec(reg, decl, ty);
    if more != reg {
        assert forall|k: int| 0 <= k < more.len() implies #[trigger] entry_ok(more, k) by {
            if k < reg.len() {
                assert(entry_ok(reg, k));
                let fields = reg[k].ty.fields@;
                lemma_end_extends(reg, more, fields, fields.len());
            } else {
                lemma_end_extends(reg, more, ty.fields@, ty.fields@.len());
            }
        }
        assert forall|i: int, j: int|
            0 <= i < more.len() && 0 <= j < more.len() && i != j implies (#[trigger] more[i]).decl
            != (#[trigger] more[j]).decl by {}
    }
}

/// Registering a declaration a second time gives the handle it got the
/// first time and leaves the registry as it was, whatever description is
/// handed in.
pub proof fn law_registration_is_idempotent(
    reg: Seq<Entry>,
    decl: u64,
    first: StructTy,
    second: StructTy,
)
    requires
        registry_wf(reg),
        register_spec(reg, decl, first) is Ok,
    ensures
        register_spec(registered_spec(reg, decl, first), decl, second) == register_spec(
            reg,
            decl,
            first,
        ),
        registered_spec(registered_spec(reg, decl, first), decl, second) == registered_spec(
            reg,
            decl,
            first,
        ),
{
    let once = registered_spec(reg, decl, first);
    lemma_registered_wf(reg, decl, first);
    if registered(reg, decl) {
    } else {
        lemma_registered_once(once, decl, reg.len() as int);
    }
}

/// Two declarations get two handles, even where their descriptions are
/// the same, in a registry whose handles fit the machine's integers.
pub proof fn law_declarations_stay_distinct(
    reg: Seq<Entry>,
    decl_a: u64,
    decl_b: u64,
    ty: StructTy,
)
    requires
        registry_wf(reg),
        reg.len() < usize::MAX,
        decl_a != decl_b,
        register_spec(reg, decl_a, ty) is Ok,
        register_spec(registered_spec(reg, decl_a, ty), decl_b, ty) is Ok,
    ensures
        register_spec(reg, decl_a, ty) != register_spec(
            registered_spec(reg, decl_a, ty),
            decl_b,
            ty,
        ),
{
    lemma_registered_wf(reg, decl_a, ty);
}

/// The registry of struct types of one compilation session.
pub struct Registry {
    entries: Vec<Entry>,
}

impl View for Registry {
    type V = Seq<Entry>;

    closed spec fn view(&self) -> Seq<Entry> {
        self.entries@
    }
}

impl Registry {
    /// The invariant of a registry.
    pub open spec fn wf(&self) -> bool {
        registry_wf(self@)
    }

    /// A registry that holds no struct.
    pub fn new() -> (r: Registry)
        ensures
            r@.len() == 0,
            r.wf(),
    {
        Registry { entries: Vec::new() }
    }

    /// The number of registered structs.
    pub fn len(&self) -> (r: usize)
        ensures
            r == self@.len(),
    {
        self.entries.len()
    }

    /// Whether the handle names a struct of this registry.
    pub fn contains(&self, id: StructId) -> (r: bool)
        ensures
            r == (id.index < self@.len()),
    {
        id.index < self.entries.len()
    }

    /// The entry of a registered struct.
    pub fn get(&self, id: StructId) -> (r: &Entry)
        requires
            id.index < self@.len(),
        ensures
            *r == self@[id.index as int],
    {
        &self.entries[id.index]
    }

    /// The description of a registered struct, or `None` for a handle of
    /// another registry.
    pub fn struct_type(&self, id: StructId) -> (r: Option<&StructTy>)
        ensures
            id.index < self@.len() ==> r == Some(&self@[id.index as int].ty),
            id.index >= self@.len() ==> r.is_none(),
    {
        if id.index < self.entries.len() {
            Some(&self.entries[id.index].ty)
        } else {
            None
        }
    }

    /// The handle under which the declaration with key `decl` is
    /// registered.
    pub fn lookup(&self, decl: u64) -> (r: Option<StructId>)
        ensures
            match r {
                Some(id) => id.index < self@.len() && self@[id.index as int].decl == decl,
                None => !registered(self@, decl),
            },
    {
        let mut i: usize = 0;
        while i < self.entries.len()
            invariant
                i <= self.entries.len(),
                forall|j: int| 0 <= j < i ==> (#[trigger] self@[j]).decl != decl,
            decreases self.entries.len() - i,
        {
            if self.entries[i].decl == decl {
                return Some(StructId { index: i });
            }
            i += 1;
        }
        None
    }

    /// The size of a type whose structs are all registered.
    pub fn size(&self, ty: Type) -> (r: Option<usize>)
        requires
            self.wf(),
        ensures
            match r {
                Some(n) => ty.within(self@.len()) && n == size_of(self@, ty),
                None => !ty.within(self@.len()) || size_of(self@, ty) > usize::MAX,
            },
    {
        match ty {
            Type::Base(b) => self.base_size(b),
            Type::Array(b, len) => {
                match self.base_size(b) {
                    None => None,
                    Some(n) => {
                        let stride: usize = align_up(n, 16);
                        assert(stride * len <= 0xffff_ffff_ffff_ffff_ffff_ffff) by (nonlinear_arith)
                            requires
                                stride <= 0x8000_0000,
                                len <= 0xffff_ffff_ffff_ffff,
                        ;
                        let total: u128 = stride as u128 * len as u128;
                        if total > usize::MAX as u128 {
                            None
                        } else {
                            Some(total as usize)
                        }
                    },
                }
            },
        }
    }

    fn base_size(&self, b: BaseType) -> (r: Option<usize>)
        requires
            self.wf(),
        ensures
            match r {
                Some(n) => b.within(self@.len()) && n == crate::layout::base_size(self@, b) && n
                    <= MAX_SIZE,
                None => !b.within(self@.len()),
            },
    {
        match b {
            BaseType::Scalar(_) => Some(4),
            BaseType::Vec2(_) => Some(8),
            BaseType::Vec3(_) => Some(12),
            BaseType::Vec4(_) => Some(16),
            BaseType::Sampler2d(_) => Some(0),
            BaseType::Struct(id) => {
                if id.index < self.entries.len() {
                    assert(entry_ok(self@, id.index as int));
                    Some(self.entries[id.index].size)
                } else {
                    None
                }
            },
        }
    }

    /// Registers the struct declared under key `decl`. A declaration that
    /// is registered already keeps its handle and its description; a new one
    /// is refused if it names a struct that is not registered, holds a
    /// sampler, or is too large, and gets the next handle otherwise.
    #[verifier::loop_isolation(false)]
    pub fn register_struct(&mut self, decl: u64, ty: StructTy) -> (r: Result<StructId, Error>)
        requires
            old(self).wf(),
        ensures
            final(self).wf(),
            final(self)@ == registered_spec(old(self)@, decl, ty),
            r == register_spec(old(self)@, decl, ty),
    {
        match self.lookup(decl) {
            Some(id) => {
                proof {
                    lemma_registered_once(self@, decl, id.index as int);
                }
                return Ok(id);
            },
            None => {},
        }
        let n: usize = self.entries.len();
        let mut i: usize = 0;
        while i < ty.fields.len()
            invariant
                i <= ty.fields.len(),
                n == self@.len(),
                forall|j: int| 0 <= j < i ==> (#[trigger] ty.fields@[j]).1.within(n as nat),
            decreases ty.fields.len() - i,
        {
            let ok: bool = match ty.fields[i].1 {
                Type::Base(BaseType::Struct(id)) => id.index < n,
                Type::Array(BaseType::Struct(id), _) => id.index < n,
                _ => true,
            };
            if !ok {
                return Err(Error::UnregisteredStruct);
            }
            i += 1;
        }
        i = 0;
        while i < ty.fields.len()
            invariant
                i <= ty.fields.len(),
                forall|j: int| 0 <= j < i ==> !opaque((#[trigger] ty.fields@[j]).1),
            decreases ty.fields.len() - i,
        {
            let sampler: bool = match ty.fields[i].1 {
                Type::Base(BaseType::Sampler2d(_)) => true,
                Type::Array(BaseType::Sampler2d(_), _) => true,
                _ => false,
            };
            if sampler {
                return Err(Error::SamplerField);
            }
            i += 1;
        }
        let mut offset: usize = 0;
        i = 0;
        while i < ty.fields.len()
            invariant
                i <= ty.fields.len(),
                self.wf(),
                self@ == old(self)@,
                fields_within(ty.fields@, self@.len()),
                offset == end_offset(self@, ty.fields@, i as nat),
                offset <= MAX_SIZE,
            decreases ty.fields.len() - i,
        {
            let field_ty: Type = ty.fields[i].1;
            let a: usize = alignment(field_ty);
            let start: usize = align_up(offset, a);
            proof {
                lemma_end_monotone(self@, ty.fields@, (i + 1) as nat, ty.fields@.len());
                lemma_round_up(end_offset(self@, ty.fields@, ty.fields@.len()), 16);
            }
            match self.size(field_ty) {
                None => {
                    return Err(Error::TooLarge);
                },
                Some(size) => {
                    if size > MAX_SIZE || start > MAX_SIZE - size {
                        return Err(Error::TooLarge);
                    }
                    offset = start + size;
                },
            }
            i += 1;
        }
        let size: usize = align_up(offset, 16);
        if size > MAX_SIZE {
            return Err(Error::TooLarge);
        }
        proof {
            lemma_registered_wf(self@, decl, ty);
        }
        self.entries.push(Entry { decl, ty, size });
        Ok(StructId { index: n })
    }
}

} // verus!
