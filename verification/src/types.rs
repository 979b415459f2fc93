//! Types of the generated C/C++ programs: a base type plus an ordered list of
//! modifiers, rendered as qualifiers, base spelling, then modifiers.

use vstd::prelude::*;

use crate::formatter::Formatter;
use crate::formatter::line_start;
use crate::formatter::written;

verus! {

/// Visibility of C++ class members.
#[derive(Debug, Clone, Copy, PartialEq, Eq, Structural)]
pub enum Visibility {
    /// Members are declared to be public.
    Public,
    /// Members are declared to be protected.
    Protected,
    /// Members are declared to be private.
    Private,
    /// The default visibility.
    Default,
}

/// The spelling of a visibility: the keyword, or nothing for the default.
pub open spec fn vis_text(v: Visibility) -> Seq<char> {
    match v {
        Visibility::Public => "public"@,
        Visibility::Protected => "protected"@,
        Visibility::Private => "private"@,
        Visibility::Default => Seq::empty(),
    }
}

impl Visibility {
    /// Renders the visibility keyword as a string.
    pub fn to_string(&self) -> (r: String)
        ensures
            r@ == vis_text(*self),
    {
        let mut s = String::new();
        match self {
            Visibility::Public => s.append("public"),
            Visibility::Protected => s.append("protected"),
            Visibility::Private => s.append("private"),
            Visibility::Default => {
                proof {
                    assert(s@ + Seq::<char>::empty() =~= s@);
                }
            },
        }
        s
    }

    /// Writes the visibility keyword through the formatter.
    pub fn fmt(&self, fmt: &mut Formatter)
        ensures
            final(fmt).out@ == old(fmt).out@ + written(
                vis_text(*self),
                old(fmt).spaces as nat,
                line_start(old(fmt).out@),
            ),
            final(fmt).spaces == old(fmt).spaces,
            final(fmt).scopes == old(fmt).scopes,
    {
        let s = self.to_string();
        fmt.write_str(s.as_str());
    }
}

/// A base type in C/C++: the unqualified, unmodified core type identity.
#[derive(Debug)]
pub enum BaseType {
    /// void type, used in function return values or generic pointers.
    Void,
    /// double precision floating point number.
    Double,
    /// single precision floating point number.
    Float,
    /// a character.
    Char,
    /// an unsigned one byte integer (`uint8_t`).
    UInt8,
    /// an unsigned two byte integer (`uint16_t`).
    UInt16,
    /// an unsigned four byte integer (`uint32_t`).
    UInt32,
    /// an unsigned eight byte integer (`uint64_t`).
    UInt64,
    /// a signed one byte integer (`int8_t`).
    Int8,
    /// a signed two byte integer (`int16_t`).
    Int16,
    /// a signed four byte integer (`int32_t`).
    Int32,
    /// a signed eight byte integer (`int64_t`).
    Int64,
    /// a size type (`size_t`).
    Size,
    /// a pointer-sized integer (`uintptr_t`).
    UIntPtr,
    /// a boolean value (`bool`).
    Bool,
    /// an enumeration type (`enum NAME`).
    Enum(String),
    /// a struct type (`struct NAME`).
    Struct(String),
    /// a union type (`union NAME`).
    Union(String),
    /// a simple class.
    Class(String),
    /// a class with template arguments.
    TemplateClass(String, Vec<String>),
    /// a typedef name; the flag records whether it names a pointer-like type.
    TypeDef(String, bool),
}

/// Template arguments joined with commas.
pub open spec fn tpl_args_text(args: Seq<Seq<char>>) -> Seq<char>
    decreases args.len(),
{
    if args.len() == 0 {
        Seq::empty()
    } else if args.len() == 1 {
        args.last()
    } else {
        tpl_args_text(args.drop_last()) + ","@ + args.last()
    }
}

/// The canonical spelling of a base type.
pub open spec fn base_text(b: BaseType) -> Seq<char> {
    match b {
        BaseType::Void => "void"@,
        BaseType::Double => "double"@,
        BaseType::Float => "float"@,
        BaseType::Char => "char"@,
        BaseType::UInt8 => "uint8_t"@,
        BaseType::UInt16 => "uint16_t"@,
        BaseType::UInt32 => "uint32_t"@,
        BaseType::UInt64 => "uint64_t"@,
        BaseType::Int8 => "int8_t"@,
        BaseType::Int16 => "int16_t"@,
        BaseType::Int32 => "int32_t"@,
        BaseType::Int64 => "int64_t"@,
        BaseType::Size => "size_t"@,
        BaseType::UIntPtr => "uintptr_t"@,
        BaseType::Bool => "bool"@,
        BaseType::Enum(s) => "enum "@ + s@,
        BaseType::Struct(s) => "struct "@ + s@,
        BaseType::Union(s) => "union "@ + s@,
        BaseType::Class(s) => s@,
        BaseType::TemplateClass(s, args) => if args@.len() > 0 {
            s@ + "<"@ + tpl_args_text(args.deep_view()) + ">"@
        } else {
            s@
        },
        BaseType::TypeDef(s, _) => s@,
    }
}

/// Whether the base type is an integer type; typedefs not marked pointer-like
/// count as integers.
pub open spec fn base_is_integer(b: BaseType) -> bool {
    match b {
        BaseType::UInt8 | BaseType::UInt16 | BaseType::UInt32 | BaseType::UInt64 => true,
        BaseType::Int8 | BaseType::Int16 | BaseType::Int32 | BaseType::Int64 => true,
        BaseType::Size | BaseType::UIntPtr | BaseType::Bool | BaseType::Char => true,
        BaseType::TypeDef(_, ptr) => !ptr,
        _ => false,
    }
}

/// Whether the base type names a structured type.
pub open spec fn base_is_struct(b: BaseType) -> bool {
    match b {
        BaseType::Struct(_) => true,
        BaseType::Union(_) => true,
        BaseType::Class(_) => true,
        BaseType::TemplateClass(_, _) => true,
        BaseType::TypeDef(_, _) => true,
        _ => false,
    }
}

/// Whether the base type is a typedef marked pointer-like.
pub open spec fn base_is_typedef_ptr(b: BaseType) -> bool {
    match b {
        BaseType::TypeDef(_, ptr) => ptr,
        _ => false,
    }
}

impl BaseType {
    /// Appends the canonical spelling of the base type to `s`.
    #[verifier::loop_isolation(false)]
    pub fn push_text(&self, s: &mut String)
        ensures
            final(s)@ == old(s)@ + base_text(*self),
    {
        match self {
            BaseType::Void => s.append("void"),
            BaseType::Double => s.append("double"),
            BaseType::Float => s.append("float"),
            BaseType::Char => s.append("char"),
            BaseType::UInt8 => s.append("uint8_t"),
            BaseType::UInt16 => s.append("uint16_t"),
            BaseType::UInt32 => s.append("uint32_t"),
            BaseType::UInt64 => s.append("uint64_t"),
            BaseType::Int8 => s.append("int8_t"),
            BaseType::Int16 => s.append("int16_t"),
            BaseType::Int32 => s.append("int32_t"),
            BaseType::Int64 => s.append("int64_t"),
            BaseType::Size => s.append("size_t"),
            BaseType::UIntPtr => s.append("uintptr_t"),
            BaseType::Bool => s.append("bool"),
            BaseType::Enum(n) => {
                s.append("enum ");
                s.append(n.as_str());
            },
            BaseType::Struct(n) => {
                s.append("struct ");
                s.append(n.as_str());
            },
            BaseType::Union(n) => {
                s.append("union ");
                s.append(n.as_str());
            },
            BaseType::Class(n) => s.append(n.as_str()),
            BaseType::TemplateClass(n, args) => {
                s.append(n.as_str());
                if args.len() > 0 {
                    s.append("<");
                    let joined = join_comma(args);
                    s.append(joined.as_str());
                    s.append(">");
                }
            },
            BaseType::TypeDef(n, _) => s.append(n.as_str()),
        }
        proof {
            assert(s@ =~= old(s)@ + base_text(*self));
        }
    }
}

/// Joins the given strings with commas, as template arguments are spelled.
#[verifier::loop_isolation(false)]
fn join_comma(args: &Vec<String>) -> (r: String)
    ensures
        r@ == tpl_args_text(args.deep_view()),
{
    let ghost vs = args.deep_view();
    let mut acc = String::new();
    let mut i: usize = 0;
    proof {
        assert(vs.subrange(0, 0) =~= Seq::<Seq<char>>::empty());
    }
    while i < args.len()
        invariant
            i <= args.len(),
            acc@ == tpl_args_text(vs.subrange(0, i as int)),
        decreases args.len() - i,
    {
        if i > 0 {
            acc.append(",");
        }
        acc.append(args[i].as_str());
        proof {
            let cur = vs.subrange(0, i as int + 1);
            assert(cur.drop_last() =~= vs.subrange(0, i as int));
            assert(cur.last() == vs[i as int]);
        }
        i += 1;
    }
    proof {
        assert(vs.subrange(0, vs.len() as int) =~= vs);
    }
    acc
}

/// Clones a vector of strings element by element.
fn clone_string_vec(v: &Vec<String>) -> (r: Vec<String>)
    ensures
        r.deep_view() == v.deep_view(),
{
    let mut r: Vec<String> = Vec::new();
    let mut i: usize = 0;
    while i < v.len()
        invariant
            i <= v.len(),
            r@.len() == i,
            forall|j: int| 0 <= j < i ==> #[trigger] r@[j]@ == v@[j]@,
        decreases v.len() - i,
    {
        r.push(v[i].clone());
        i += 1;
    }
    proof {
        assert(r.deep_view() =~~= v.deep_view());
    }
    r
}

impl Clone for BaseType {
    /// Clones the base type; the copy has the same spelling and the same
    /// classification as the original.
    fn clone(&self) -> (r: Self)
        ensures
            base_text(r) == base_text(*self),
            base_is_integer(r) == base_is_integer(*self),
            base_is_struct(r) == base_is_struct(*self),
            base_is_typedef_ptr(r) == base_is_typedef_ptr(*self),
    {
        match self {
            BaseType::Void => BaseType::Void,
            BaseType::Double => BaseType::Double,
            BaseType::Float => BaseType::Float,
            BaseType::Char => BaseType::Char,
            BaseType::UInt8 => BaseType::UInt8,
            BaseType::UInt16 => BaseType::UInt16,
            BaseType::UInt32 => BaseType::UInt32,
            BaseType::UInt64 => BaseType::UInt64,
            BaseType::Int8 => BaseType::Int8,
            BaseType::Int16 => BaseType::Int16,
            BaseType::Int32 => BaseType::Int32,
            BaseType::Int64 => BaseType::Int64,
            BaseType::Size => BaseType::Size,
            BaseType::UIntPtr => BaseType::UIntPtr,
            BaseType::Bool => BaseType::Bool,
            BaseType::Enum(n) => BaseType::Enum(n.clone()),
            BaseType::Struct(n) => BaseType::Struct(n.clone()),
            BaseType::Union(n) => BaseType::Union(n.clone()),
            BaseType::Class(n) => BaseType::Class(n.clone()),
            BaseType::TemplateClass(n, args) => BaseType::TemplateClass(
                n.clone(),
                clone_string_vec(args),
            ),
            BaseType::TypeDef(n, p) => BaseType::TypeDef(n.clone(), *p),
        }
    }
}

impl BaseType {
    /// Checks whether the base type is an integer type.
    pub fn is_integer(&self) -> (r: bool)
        ensures
            r == base_is_integer(*self),
    {
        match self {
            BaseType::UInt8 | BaseType::UInt16 | BaseType::UInt32 | BaseType::UInt64 => true,
            BaseType::Int8 | BaseType::Int16 | BaseType::Int32 | BaseType::Int64 => true,
            BaseType::Size | BaseType::UIntPtr | BaseType::Bool | BaseType::Char => true,
            BaseType::TypeDef(_, ptr) => !*ptr,
            _ => false,
        }
    }

    /// Checks whether the base type names a structured type.
    pub fn is_struct(&self) -> (r: bool)
        ensures
            r == base_is_struct(*self),
    {
        match self {
            BaseType::Struct(_) => true,
            BaseType::Union(_) => true,
            BaseType::Class(_) => true,
            BaseType::TemplateClass(_, _) => true,
            BaseType::TypeDef(_, _) => true,
            _ => false,
        }
    }

    /// The unsigned integer base type of a given width; an unsupported width
    /// falls back to 64 bits.
    pub open spec fn new_uint_spec(bits: u64) -> BaseType {
        if bits == 8 {
            BaseType::UInt8
        } else if bits == 16 {
            BaseType::UInt16
        } else if bits == 32 {
            BaseType::UInt32
        } else {
            BaseType::UInt64
        }
    }

    /// The signed integer base type of a given width; an unsupported width
    /// falls back to 64 bits.
    pub open spec fn new_int_spec(bits: u64) -> BaseType {
        if bits == 8 {
            BaseType::Int8
        } else if bits == 16 {
            BaseType::Int16
        } else if bits == 32 {
            BaseType::Int32
        } else {
            BaseType::Int64
        }
    }

    /// Creates a new unsigned integer base type of the given width in bits;
    /// an unsupported width falls back to 64 bits.
    pub fn new_uint(bits: u64) -> (r: BaseType)
        ensures
            r == BaseType::new_uint_spec(bits),
    {
        match bits {
            8 => BaseType::UInt8,
            16 => BaseType::UInt16,
            32 => BaseType::UInt32,
            64 => BaseType::UInt64,
            _ => BaseType::UInt64,
        }
    }

    /// Creates a new signed integer base type of the given width in bits;
    /// an unsupported width falls back to 64 bits.
    pub fn new_int(bits: u64) -> (r: BaseType)
        ensures
            r == BaseType::new_int_spec(bits),
    {
        match bits {
            8 => BaseType::Int8,
            16 => BaseType::Int16,
            32 => BaseType::Int32,
            64 => BaseType::Int64,
            _ => BaseType::Int64,
        }
    }

    /// Renders the base type spelling as a string.
    pub fn to_string(&self) -> (r: String)
        ensures
            r@ == base_text(*self),
    {
        let mut s = String::new();
        self.push_text(&mut s);
        proof {
            assert(Seq::<char>::empty() + base_text(*self) =~= base_text(*self));
        }
        s
    }

    /// Writes the base type spelling through the formatter.
    pub fn fmt(&self, fmt: &mut Formatter)
        ensures
            final(fmt).out@ == old(fmt).out@ + written(
                base_text(*self),
                old(fmt).spaces as nat,
                line_start(old(fmt).out@),
            ),
            final(fmt).spaces == old(fmt).spaces,
            final(fmt).scopes == old(fmt).scopes,
    {
        let s = self.to_string();
        fmt.write_str(s.as_str());
    }
}

/// The type modifiers that can be chained onto a base type.
#[derive(Debug, Clone, Copy, PartialEq, Eq, Structural)]
pub enum TypeModifier {
    /// a pointer to the base type.
    Ptr,
    /// a volatile type.
    Volatile,
    /// a constant type.
    Const,
    /// a reference type.
    Ref,
}

/// The spelling of one type modifier.
pub open spec fn mod_text(m: TypeModifier) -> Seq<char> {
    match m {
        TypeModifier::Ptr => " *"@,
        TypeModifier::Volatile => " volatile"@,
        TypeModifier::Const => " const"@,
        TypeModifier::Ref => " &"@,
    }
}

/// The spelling of a modifier list, in insertion order.
pub open spec fn mods_text(ms: Seq<TypeModifier>) -> Seq<char>
    decreases ms.len(),
{
    if ms.len() == 0 {
        Seq::empty()
    } else {
        mods_text(ms.drop_last()) + mod_text(ms.last())
    }
}

/// The number of pointer modifiers in a modifier list.
pub open spec fn count_ptrs(ms: Seq<TypeModifier>) -> nat
    decreases ms.len(),
{
    if ms.len() == 0 {
        0
    } else {
        count_ptrs(ms.drop_last()) + if ms.last() == TypeModifier::Ptr {
            1nat
        } else {
            0nat
        }
    }
}

impl TypeModifier {
    /// Appends the modifier spelling to `s`.
    pub fn push_text(&self, s: &mut String)
        ensures
            final(s)@ == old(s)@ + mod_text(*self),
    {
        match self {
            TypeModifier::Ptr => s.append(" *"),
            TypeModifier::Volatile => s.append(" volatile"),
            TypeModifier::Const => s.append(" const"),
            TypeModifier::Ref => s.append(" &"),
        }
    }

    /// Writes the modifier spelling through the formatter.
    pub fn fmt(&self, fmt: &mut Formatter)
        ensures
            final(fmt).out@ == old(fmt).out@ + written(
                mod_text(*self),
                old(fmt).spaces as nat,
                line_start(old(fmt).out@),
            ),
            final(fmt).spaces == old(fmt).spaces,
            final(fmt).scopes == old(fmt).scopes,
    {
        match self {
            TypeModifier::Ptr => fmt.write_str(" *"),
            TypeModifier::Volatile => fmt.write_str(" volatile"),
            TypeModifier::Const => fmt.write_str(" const"),
            TypeModifier::Ref => fmt.write_str(" &"),
        }
    }
}

/// Extending a modifier list by one entry adds its contribution to the
/// pointer count.
pub proof fn lemma_count_ptrs_push(ms: Seq<TypeModifier>, m: TypeModifier)
    ensures
        count_ptrs(ms.push(m)) == count_ptrs(ms) + if m == TypeModifier::Ptr {
            1nat
        } else {
            0nat
        },
{
    assert(ms.push(m).drop_last() =~= ms);
}

/// A prefix of a modifier list never holds more pointers than the whole.
pub proof fn lemma_count_ptrs_mono(ms: Seq<TypeModifier>, k: int)
    requires
        0 <= k <= ms.len(),
    ensures
        count_ptrs(ms.subrange(0, k)) <= count_ptrs(ms),
    decreases ms.len() - k,
{
    if k == ms.len() {
        assert(ms.subrange(0, k) =~= ms);
    } else {
        assert(ms.drop_last().subrange(0, k) =~= ms.subrange(0, k));
        lemma_count_ptrs_mono(ms.drop_last(), k);
    }
}

/// The index of the last pointer modifier, or `-1` when there is none.
pub open spec fn last_ptr_index(ms: Seq<TypeModifier>) -> int
    decreases ms.len(),
{
    if ms.len() == 0 {
        -1
    } else if ms.last() == TypeModifier::Ptr {
        ms.len() - 1
    } else {
        last_ptr_index(ms.drop_last())
    }
}

/// A pointer at position `i` that already accounts for every pointer in the
/// list is the last pointer of the list.
pub proof fn lemma_last_ptr_from_count(ms: Seq<TypeModifier>, i: int)
    requires
        0 <= i < ms.len(),
        ms[i] == TypeModifier::Ptr,
        count_ptrs(ms.subrange(0, i + 1)) == count_ptrs(ms),
    ensures
        last_ptr_index(ms) == i,
    decreases ms.len(),
{
    if i == ms.len() - 1 {
        assert(ms.last() == TypeModifier::Ptr);
    } else {
        lemma_count_ptrs_mono(ms.drop_last(), i + 1);
        assert(ms.drop_last().subrange(0, i + 1) =~= ms.subrange(0, i + 1));
        assert(ms.last() != TypeModifier::Ptr);
        lemma_last_ptr_from_count(ms.drop_last(), i);
    }
}

/// A full type: a base type together with an ordered list of modifiers, a
/// pointer count, and value-level qualifiers.
#[derive(Debug)]
pub struct Type {
    /// the base type.
    pub base: BaseType,
    /// the type modifiers, in insertion order.
    pub mods: Vec<TypeModifier>,
    /// the number of pointer modifiers in `mods`.
    pub nptr: u8,
    /// whether the value itself is const.
    pub is_const: bool,
    /// whether the value itself is volatile.
    pub is_volatile: bool,
}

/// The spelling of a full type: value-level qualifiers, base spelling, then
/// each modifier in insertion order.
pub open spec fn type_text(t: Type) -> Seq<char> {
    (if t.is_volatile {
        "volatile "@
    } else {
        Seq::<char>::empty()
    }) + (if t.is_const {
        "const "@
    } else {
        Seq::<char>::empty()
    }) + base_text(t.base) + mods_text(t.mods@)
}

/// Whether the type represents a pointer value; pointer-like typedefs count.
pub open spec fn type_is_ptr(t: Type) -> bool {
    t.nptr > 0 || base_is_typedef_ptr(t.base)
}

/// Whether the type represents an integer value; any pointer or reference
/// modifier makes it non-integer.
pub open spec fn type_is_integer(t: Type) -> bool {
    t.nptr == 0 && base_is_integer(t.base)
}

/// Whether the type's base names a structured type.
pub open spec fn type_is_struct(t: Type) -> bool {
    base_is_struct(t.base)
}

impl Type {
    /// The stored pointer count agrees with the modifier list.
    pub open spec fn wf(self) -> bool {
        self.nptr as nat == count_ptrs(self.mods@)
    }

    /// The base type and qualifiers carry over from `other` unchanged.
    pub open spec fn same_base(self, other: Type) -> bool {
        base_text(self.base) == base_text(other.base) && base_is_integer(self.base)
            == base_is_integer(other.base) && base_is_struct(self.base) == base_is_struct(
            other.base,
        ) && base_is_typedef_ptr(self.base) == base_is_typedef_ptr(other.base)
    }

    /// The type carries no modifiers and no value-level qualifiers.
    pub open spec fn unmodified(self) -> bool {
        self.mods@ == Seq::<TypeModifier>::empty() && self.nptr == 0 && !self.is_const
            && !self.is_volatile
    }

    /// Creates a new type from the base type, with no modifiers.
    pub fn new(base: BaseType) -> (r: Self)
        ensures
            r.base == base,
            r.unmodified(),
            r.wf(),
            type_text(r) == base_text(base),
    {
        let r = Type { base, mods: Vec::new(), nptr: 0, is_const: false, is_volatile: false };
        proof {
            assert(type_text(r) =~= base_text(r.base));
        }
        r
    }

    /// Creates a new void type.
    pub fn new_void() -> (r: Self)
        ensures
            r.base == BaseType::Void,
            r.unmodified(),
            r.wf(),
            type_text(r) == "void"@,
    {
        Type::new(BaseType::Void)
    }

    /// Creates a new type description for booleans.
    pub fn new_bool() -> (r: Self)
        ensures
            r.base == BaseType::Bool,
            r.unmodified(),
            r.wf(),
            type_text(r) == "bool"@,
    {
        Type::new(BaseType::Bool)
    }

    /// Creates a new type description for characters.
    pub fn new_char() -> (r: Self)
        ensures
            r.base == BaseType::Char,
            r.unmodified(),
            r.wf(),
            type_text(r) == "char"@,
    {
        Type::new(BaseType::Char)
    }

    /// Creates a new type description for signed integers of the given width.
    pub fn new_int(bits: u64) -> (r: Self)
        ensures
            r.base == BaseType::new_int_spec(bits),
            r.unmodified(),
            r.wf(),
    {
        Type::new(BaseType::new_int(bits))
    }

    /// Creates a new type description for signed one byte integers.
    pub fn new_int8() -> (r: Self)
        ensures
            r.base == BaseType::Int8,
            r.unmodified(),
            r.wf(),
            type_text(r) == "int8_t"@,
    {
        Type::new(BaseType::Int8)
    }

    /// Creates a new type description for signed two byte integers.
    pub fn new_int16() -> (r: Self)
        ensures
            r.base == BaseType::Int16,
            r.unmodified(),
            r.wf(),
            type_text(r) == "int16_t"@,
    {
        Type::new(BaseType::Int16)
    }

    /// Creates a new type description for signed four byte integers.
    pub fn new_int32() -> (r: Self)
        ensures
            r.base == BaseType::Int32,
            r.unmodified(),
            r.wf(),
            type_text(r) == "int32_t"@,
    {
        Type::new(BaseType::Int32)
    }

    /// Creates a new type description for signed eight byte integers.
    pub fn new_int64() -> (r: Self)
        ensures
            r.base == BaseType::Int64,
            r.unmodified(),
            r.wf(),
            type_text(r) == "int64_t"@,
    {
        Type::new(BaseType::Int64)
    }

    /// Creates a new type description for unsigned integers of the given
    /// width.
    pub fn new_uint(bits: u64) -> (r: Self)
        ensures
            r.base == BaseType::new_uint_spec(bits),
            r.unmodified(),
            r.wf(),
    {
        Type::new(BaseType::new_uint(bits))
    }

    /// Creates a new type description for unsigned one byte integers.
    pub fn new_uint8() -> (r: Self)
        ensures
            r.base == BaseType::UInt8,
            r.unmodified(),
            r.wf(),
            type_text(r) == "uint8_t"@,
    {
        Type::new(BaseType::UInt8)
    }

    /// Creates a new type description for unsigned two byte integers.
    pub fn new_uint16() -> (r: Self)
        ensures
            r.base == BaseType::UInt16,
            r.unmodified(),
            r.wf(),
            type_text(r) == "uint16_t"@,
    {
        Type::new(BaseType::UInt16)
    }

    /// Creates a new type description for unsigned four byte integers.
    pub fn new_uint32() -> (r: Self)
        ensures
            r.base == BaseType::UInt32,
            r.unmodified(),
            r.wf(),
            type_text(r) == "uint32_t"@,
    {
        Type::new(BaseType::UInt32)
    }

    /// Creates a new type description for unsigned eight byte integers.
    pub fn new_uint64() -> (r: Self)
        ensures
            r.base == BaseType::UInt64,
            r.unmodified(),
            r.wf(),
            type_text(r) == "uint64_t"@,
    {
        Type::new(BaseType::UInt64)
    }

    /// Creates a new type description for the size type.
    pub fn new_size() -> (r: Self)
        ensures
            r.base == BaseType::Size,
            r.unmodified(),
            r.wf(),
            type_text(r) == "size_t"@,
    {
        Type::new(BaseType::Size)
    }

    /// Creates a new type description for a pointer-sized integer.
    pub fn new_uintptr() -> (r: Self)
        ensures
            r.base == BaseType::UIntPtr,
            r.unmodified(),
            r.wf(),
            type_text(r) == "uintptr_t"@,
    {
        Type::new(BaseType::UIntPtr)
    }

    /// Creates a new type description for the C++ `std::string` class.
    pub fn new_std_string() -> (r: Self)
        ensures
            r.unmodified(),
            r.wf(),
            type_text(r) == "std::string"@,
            !type_is_ptr(r),
            type_is_struct(r),
            !type_is_integer(r),
    {
        Type::new_class("std::string")
    }

    /// Creates a new type description for a C-like string: a pointer to char.
    pub fn new_cstr() -> (r: Self)
        ensures
            r.base == BaseType::Char,
            r.mods@ == seq![TypeModifier::Ptr],
            r.nptr == 1,
            !r.is_const,
            !r.is_volatile,
            r.wf(),
            type_text(r) == "char"@ + " *"@,
    {
        let mut t = Type::new_char();
        t.pointer();
        proof {
            assert(t.mods@ =~= seq![TypeModifier::Ptr]);
            assert(t.mods@.drop_last() =~= Seq::<TypeModifier>::empty());
            assert(type_text(t) =~= "char"@ + " *"@);
        }
        t
    }

    /// Creates a new type for an enum with the given name.
    pub fn new_enum(name: &str) -> (r: Self)
        ensures
            r.unmodified(),
            r.wf(),
            type_text(r) == "enum "@ + name@,
            !type_is_ptr(r),
            !type_is_struct(r),
            !type_is_integer(r),
    {
        Type::new(BaseType::Enum(name.to_owned()))
    }

    /// Creates a new type for a struct with the given name.
    pub fn new_struct(name: &str) -> (r: Self)
        ensures
            r.unmodified(),
            r.wf(),
            type_text(r) == "struct "@ + name@,
            !type_is_ptr(r),
            type_is_struct(r),
            !type_is_integer(r),
    {
        Type::new(BaseType::Struct(name.to_owned()))
    }

    /// Creates a new type for a union with the given name.
    pub fn new_union(name: &str) -> (r: Self)
        ensures
            r.unmodified(),
            r.wf(),
            type_text(r) == "union "@ + name@,
            !type_is_ptr(r),
            type_is_struct(r),
            !type_is_integer(r),
    {
        Type::new(BaseType::Union(name.to_owned()))
    }

    /// Creates a new type for a class with the given name.
    pub fn new_class(name: &str) -> (r: Self)
        ensures
            r.unmodified(),
            r.wf(),
            type_text(r) == name@,
            !type_is_ptr(r),
            type_is_struct(r),
            !type_is_integer(r),
    {
        Type::new(BaseType::Class(name.to_owned()))
    }

    /// Creates a new type for a typedef with the given name.
    pub fn new_typedef(name: &str) -> (r: Self)
        ensures
            r.unmodified(),
            r.wf(),
            type_text(r) == name@,
            !type_is_ptr(r),
            type_is_struct(r),
            type_is_integer(r),
    {
        Type::new(BaseType::TypeDef(name.to_owned(), false))
    }

    /// Creates a new type for a typedef that names a pointer-like type.
    pub fn new_typedef_ptr(name: &str) -> (r: Self)
        ensures
            r.unmodified(),
            r.wf(),
            type_text(r) == name@,
            type_is_ptr(r),
            type_is_struct(r),
            !type_is_integer(r),
    {
        Type::new(BaseType::TypeDef(name.to_owned(), true))
    }

    /// Creates a new type from `self` by taking a pointer of it, as in
    /// `int` to `int *`.
    pub fn to_ptr(&self) -> (r: Self)
        requires
            self.nptr < u8::MAX,
        ensures
            r.same_base(*self),
            r.mods@ == self.mods@.push(TypeModifier::Ptr),
            r.nptr == self.nptr + 1,
            r.is_const == self.is_const,
            r.is_volatile == self.is_volatile,
            self.wf() ==> r.wf(),
            type_text(r) == type_text(*self) + " *"@,
    {
        let mut n = self.clone();
        n.mods.push(TypeModifier::Ptr);
        n.nptr = n.nptr + 1;
        proof {
            lemma_count_ptrs_push(self.mods@, TypeModifier::Ptr);
            assert(n.mods@.drop_last() =~= self.mods@);
            assert(type_text(n) =~= type_text(*self) + " *"@);
        }
        n
    }

    /// Creates a new type from `self` by taking a reference of it, as in
    /// `int` to `int &`.
    pub fn to_ref(&self) -> (r: Self)
        ensures
            r.same_base(*self),
            r.mods@ == self.mods@.push(TypeModifier::Ref),
            r.nptr == self.nptr,
            r.is_const == self.is_const,
            r.is_volatile == self.is_volatile,
            self.wf() ==> r.wf(),
            type_text(r) == type_text(*self) + " &"@,
    {
        let mut n = self.clone();
        n.mods.push(TypeModifier::Ref);
        proof {
            lemma_count_ptrs_push(self.mods@, TypeModifier::Ref);
            assert(n.mods@.drop_last() =~= self.mods@);
            assert(type_text(n) =~= type_text(*self) + " &"@);
        }
        n
    }

    /// Obtains a new type from `self` by removing the last pointer modifier,
    /// as in `int **` to `int *`; yields nothing when the type holds no
    /// pointer modifier.
    #[verifier::loop_isolation(false)]
    pub fn to_deref(&self) -> (r: Option<Self>)
        requires
            self.wf(),
        ensures
            r is Some <==> self.nptr > 0,
            self.nptr > 0 ==> {
                let d = r->0;
                &&& d.same_base(*self)
                &&& d.mods@ == self.mods@.subrange(0, last_ptr_index(self.mods@))
                &&& d.nptr == self.nptr - 1
                &&& d.is_const == self.is_const
                &&& d.is_volatile == self.is_volatile
                &&& d.wf()
            },
    {
        if self.nptr == 0 {
            return None;
        }
        proof {
            lemma_deref_pointer_count(self.mods@);
        }
        let mut n = Type::new(self.base.clone());
        n.is_const = self.is_const;
        n.is_volatile = self.is_volatile;
        let mut i: usize = 0;
        proof {
            assert(n.mods@ =~= self.mods@.subrange(0, 0));
        }
        while i < self.mods.len()
            invariant
                i <= self.mods.len(),
                n.mods@ == self.mods@.subrange(0, i as int),
                n.nptr as nat == count_ptrs(self.mods@.subrange(0, i as int)),
                n.nptr < self.nptr,
                n.same_base(*self),
                n.is_const == self.is_const,
                n.is_volatile == self.is_volatile,
            decreases self.mods.len() - i,
        {
            let m = self.mods[i];
            proof {
                assert(self.mods@.subrange(0, i as int + 1).drop_last() =~= self.mods@.subrange(
                    0,
                    i as int,
                ));
            }
            if m == TypeModifier::Ptr {
                if n.nptr == self.nptr - 1 {
                    proof {
                        lemma_last_ptr_from_count(self.mods@, i as int);
                    }
                    return Some(n);
                }
                n.nptr = n.nptr + 1;
            }
            n.mods.push(m);
            i += 1;
        }
        proof {
            assert(self.mods@.subrange(0, self.mods@.len() as int) =~= self.mods@);
            assert(false);
        }
        Some(n)
    }

    /// Creates a new type from `self` with a trailing const modifier, as in
    /// `int *` to `int * const`; `self` is left unchanged.
    pub fn to_const(&mut self) -> (r: Self)
        ensures
            *final(self) == *old(self),
            r.same_base(*old(self)),
            r.mods@ == old(self).mods@.push(TypeModifier::Const),
            r.nptr == old(self).nptr,
            r.is_const == old(self).is_const,
            r.is_volatile == old(self).is_volatile,
            old(self).wf() ==> r.wf(),
    {
        let mut n = self.clone();
        n.mods.push(TypeModifier::Const);
        proof {
            lemma_count_ptrs_push(self.mods@, TypeModifier::Const);
            assert(n.mods@.drop_last() =~= self.mods@);
        }
        n
    }

    /// Appends a volatile modifier to the current type, as in `int *` to
    /// `int * volatile`.
    pub fn to_volatile(&mut self) -> (r: &mut Self)
        ensures
            r.same_base(*old(self)),
            r.base == old(self).base,
            r.mods@ == old(self).mods@.push(TypeModifier::Volatile),
            r.nptr == old(self).nptr,
            r.is_const == old(self).is_const,
            r.is_volatile == old(self).is_volatile,
            old(self).wf() ==> r.wf(),
            *final(self) == *final(r),
    {
        self.mods.push(TypeModifier::Volatile);
        proof {
            lemma_count_ptrs_push(old(self).mods@, TypeModifier::Volatile);
        }
        self
    }

    /// Obtains a reference to the base type of the type.
    pub fn basetype(&self) -> (r: &BaseType)
        ensures
            *r == self.base,
    {
        &self.base
    }

    /// Checks whether the type's base names a structured type.
    pub fn is_struct(&self) -> (r: bool)
        ensures
            r == type_is_struct(*self),
    {
        self.base.is_struct()
    }

    /// Checks whether this type represents an integer value; a pointer or
    /// reference makes it non-integer.
    pub fn is_integer(&self) -> (r: bool)
        ensures
            r == type_is_integer(*self),
    {
        if self.nptr != 0 {
            return false;
        }
        self.base.is_integer()
    }

    /// Checks whether the type represents a pointer value; a typedef marked
    /// pointer-like counts as a pointer.
    pub fn is_ptr(&self) -> (r: bool)
        ensures
            r == type_is_ptr(*self),
    {
        if self.nptr > 0 {
            return true;
        }
        match &self.base {
            BaseType::TypeDef(_, ptr) => *ptr,
            _ => false,
        }
    }

    /// Toggles whether the value of the type is volatile; setting it clears
    /// the value-level const qualifier.
    pub fn toggle_value_volatile(&mut self, val: bool) -> (r: &mut Self)
        ensures
            r.base == old(self).base,
            r.mods == old(self).mods,
            r.nptr == old(self).nptr,
            r.is_volatile == val,
            r.is_const == (if val {
                false
            } else {
                old(self).is_const
            }),
            *final(self) == *final(r),
    {
        self.is_volatile = val;
        if val {
            self.is_const = false;
        }
        self
    }

    /// Makes the value of the type volatile.
    pub fn set_value_volatile(&mut self) -> (r: &mut Self)
        ensures
            r.base == old(self).base,
            r.mods == old(self).mods,
            r.nptr == old(self).nptr,
            r.is_volatile == true,
            r.is_const == false,
            *final(self) == *final(r),
    {
        self.toggle_value_volatile(true)
    }

    /// Toggles whether the value of the type is const; setting it clears the
    /// value-level volatile qualifier.
    pub fn toggle_value_const(&mut self, val: bool) -> (r: &mut Self)
        ensures
            r.base == old(self).base,
            r.mods == old(self).mods,
            r.nptr == old(self).nptr,
            r.is_const == val,
            r.is_volatile == (if val {
                false
            } else {
                old(self).is_volatile
            }),
            *final(self) == *final(r),
    {
        self.is_const = val;
        if val {
            self.is_volatile = false;
        }
        self
    }

    /// Makes the value of the type const.
    pub fn set_value_const(&mut self) -> (r: &mut Self)
        ensures
            r.base == old(self).base,
            r.mods == old(self).mods,
            r.nptr == old(self).nptr,
            r.is_const == true,
            r.is_volatile == false,
            *final(self) == *final(r),
    {
        self.toggle_value_const(true)
    }

    /// Adds a pointer modifier to the current type, as in `int` to `int *`.
    pub fn pointer(&mut self) -> (r: &mut Self)
        requires
            old(self).nptr < 32,
        ensures
            r.base == old(self).base,
            r.mods@ == old(self).mods@.push(TypeModifier::Ptr),
            r.nptr == old(self).nptr + 1,
            r.is_const == old(self).is_const,
            r.is_volatile == old(self).is_volatile,
            old(self).wf() ==> r.wf(),
            *final(self) == *final(r),
    {
        self.mods.push(TypeModifier::Ptr);
        self.nptr = self.nptr + 1;
        proof {
            lemma_count_ptrs_push(old(self).mods@, TypeModifier::Ptr);
        }
        self
    }

    /// Adds a reference modifier to the current type, as in `int` to `int &`.
    pub fn reference(&mut self) -> (r: &mut Self)
        ensures
            r.base == old(self).base,
            r.mods@ == old(self).mods@.push(TypeModifier::Ref),
            r.nptr == old(self).nptr,
            r.is_const == old(self).is_const,
            r.is_volatile == old(self).is_volatile,
            old(self).wf() ==> r.wf(),
            *final(self) == *final(r),
    {
        self.mods.push(TypeModifier::Ref);
        proof {
            lemma_count_ptrs_push(old(self).mods@, TypeModifier::Ref);
        }
        self
    }

    /// Adds a const modifier to the current type, as in `int *` to
    /// `int * const`.
    pub fn constant(&mut self) -> (r: &mut Self)
        ensures
            r.base == old(self).base,
            r.mods@ == old(self).mods@.push(TypeModifier::Const),
            r.nptr == old(self).nptr,
            r.is_const == old(self).is_const,
            r.is_volatile == old(self).is_volatile,
            old(self).wf() ==> r.wf(),
            *final(self) == *final(r),
    {
        self.mods.push(TypeModifier::Const);
        proof {
            lemma_count_ptrs_push(old(self).mods@, TypeModifier::Const);
        }
        self
    }

    /// Adds a volatile modifier to the current type, as in `int *` to
    /// `int * volatile`.
    pub fn volatile(&mut self) -> (r: &mut Self)
        ensures
            r.base == old(self).base,
            r.mods@ == old(self).mods@.push(TypeModifier::Volatile),
            r.nptr == old(self).nptr,
            r.is_const == old(self).is_const,
            r.is_volatile == old(self).is_volatile,
            old(self).wf() ==> r.wf(),
            *final(self) == *final(r),
    {
        self.mods.push(TypeModifier::Volatile);
        proof {
            lemma_count_ptrs_push(old(self).mods@, TypeModifier::Volatile);
        }
        self
    }

    /// Appends the full type spelling to `s`.
    #[verifier::loop_isolation(false)]
    pub fn push_text(&self, s: &mut String)
        ensures
            final(s)@ == old(s)@ + type_text(*self),
    {
        if self.is_volatile {
            s.append("volatile ");
        }
        if self.is_const {
            s.append("const ");
        }
        self.base.push_text(s);
        let ghost head = s@;
        let mut i: usize = 0;
        proof {
            assert(s@ + mods_text(self.mods@.subrange(0, 0)) =~= s@);
        }
        while i < self.mods.len()
            invariant
                i <= self.mods.len(),
                s@ == head + mods_text(self.mods@.subrange(0, i as int)),
            decreases self.mods.len() - i,
        {
            proof {
                assert(self.mods@.subrange(0, i as int + 1).drop_last() =~= self.mods@.subrange(
                    0,
                    i as int,
                ));
            }
            let m = self.mods[i];
            m.push_text(s);
            proof {
                assert(s@ =~= head + mods_text(self.mods@.subrange(0, i as int + 1)));
            }
            i += 1;
        }
        proof {
            assert(self.mods@.subrange(0, self.mods@.len() as int) =~= self.mods@);
            assert(s@ =~= old(s)@ + type_text(*self));
        }
    }

    /// Renders the full type spelling as a string.
    pub fn to_string(&self) -> (r: String)
        ensures
            r@ == type_text(*self),
    {
        let mut s = String::new();
        self.push_text(&mut s);
        proof {
            assert(Seq::<char>::empty() + type_text(*self) =~= type_text(*self));
        }
        s
    }

    /// Writes the full type spelling through the formatter.
    pub fn fmt(&self, fmt: &mut Formatter)
        ensures
            final(fmt).out@ == old(fmt).out@ + written(
                type_text(*self),
                old(fmt).spaces as nat,
                line_start(old(fmt).out@),
            ),
            final(fmt).spaces == old(fmt).spaces,
            final(fmt).scopes == old(fmt).scopes,
    {
        let s = self.to_string();
        fmt.write_str(s.as_str());
    }
}

impl Clone for Type {
    /// Clones the type; the copy has the same modifiers, pointer count,
    /// qualifiers, and base spelling and classification as the original.
    fn clone(&self) -> (r: Self)
        ensures
            r.same_base(*self),
            r.mods@ == self.mods@,
            r.nptr == self.nptr,
            r.is_const == self.is_const,
            r.is_volatile == self.is_volatile,
            type_text(r) == type_text(*self),
    {
        let r = Type {
            base: self.base.clone(),
            mods: clone_mods(&self.mods),
            nptr: self.nptr,
            is_const: self.is_const,
            is_volatile: self.is_volatile,
        };
        proof {
            assert(type_text(r) =~= type_text(*self));
        }
        r
    }
}

/// Copies a modifier list entry by entry.
fn clone_mods(v: &Vec<TypeModifier>) -> (r: Vec<TypeModifier>)
    ensures
        r@ == v@,
{
    let mut r: Vec<TypeModifier> = Vec::new();
    let mut i: usize = 0;
    proof {
        assert(r@ =~= v@.subrange(0, 0));
    }
    while i < v.len()
        invariant
            i <= v.len(),
            r@ == v@.subrange(0, i as int),
        decreases v.len() - i,
    {
        r.push(v[i]);
        proof {
            assert(r@ =~= v@.subrange(0, i as int + 1));
        }
        i += 1;
    }
    proof {
        assert(v@.subrange(0, v@.len() as int) =~= v@);
    }
    r
}

/// Law: removing the last pointer modifier of a list that holds at least one
/// pointer leaves exactly one pointer fewer.  Together with the contract of
/// [`Type::to_deref`], a type with pointer count `n >= 1` dereferences to a
/// type with pointer count `n - 1`, and a type with pointer count zero does
/// not dereference at all.
pub proof fn lemma_deref_pointer_count(ms: Seq<TypeModifier>)
    requires
        count_ptrs(ms) >= 1,
    ensures
        0 <= last_ptr_index(ms) < ms.len(),
        ms[last_ptr_index(ms)] == TypeModifier::Ptr,
        count_ptrs(ms.subrange(0, last_ptr_index(ms))) == count_ptrs(ms) - 1,
    decreases ms.len(),
{
    if ms.last() == TypeModifier::Ptr {
        assert(ms.subrange(0, ms.len() - 1) =~= ms.drop_last());
    } else {
        lemma_deref_pointer_count(ms.drop_last());
        assert(ms.drop_last().subrange(0, last_ptr_index(ms.drop_last())) =~= ms.subrange(
            0,
            last_ptr_index(ms.drop_last()),
        ));
    }
}

} // verus!
