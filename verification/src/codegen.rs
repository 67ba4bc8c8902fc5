//! The field-conversion logic of the proto conversion derive: for a struct
//! field and a direction (from proto, into proto), which expression fills the
//! destination field.
//!
//! Rust types are modelled by the parts of `syn::Type` the logic reads, and
//! the generated code by a small expression tree that renders to Rust text.

use vstd::prelude::*;
use crate::strings::{chars_of, same_text, concat};
use crate::text::push_char;
use vstd::string::StringExecFns;

verus! {

// ---------------------------------------------------------------------------
// Types
// ---------------------------------------------------------------------------

/// A Rust type as the derive sees it.
pub enum SynType {
    /// A path type; `qself` tells whether it is a qualified path `<T as U>::..`.
    Path { qself: bool, segments: Vec<PathSegment> },
    /// Any other kind of type.
    Other,
}

/// One segment of a type path.
pub struct PathSegment {
    pub ident: String,
    pub arguments: PathArguments,
}

/// The generic arguments of a path segment.
pub enum PathArguments {
    /// No arguments.
    Bare,
    AngleBracketed(Vec<GenericArgument>),
    Parenthesized,
}

/// One generic argument.
pub enum GenericArgument {
    Type(SynType),
    Other,
}

/// The containers the derive recognises.
pub enum Container {
    Option,
    Vec,
    HashMap,
}

/// The idents of a path, each followed by `|`.
pub open spec fn path_key(segments: Seq<PathSegment>) -> Seq<char>
    decreases segments.len(),
{
    if segments.len() == 0 {
        seq![]
    } else {
        path_key(segments.drop_last()) + segments.last().ident@ + seq!['|']
    }
}

/// The paths under which a container type is recognised.
pub open spec fn container_paths(c: Container) -> Seq<Seq<char>> {
    match c {
        Container::Option => seq!["Option|"@, "std|option|Option|"@, "core|option|Option|"@],
        Container::Vec => seq!["Vec|"@, "std|vec|Vec|"@, "alloc|vec|Vec|"@],
        Container::HashMap => seq!["HashMap|"@, "std|collections|HashMap|"@],
    }
}

/// The type inside a container type (`T` in `Option<T>`), if `ty` is that
/// container with a type as its first generic argument.
pub open spec fn container_inner(ty: SynType, c: Container) -> Option<SynType> {
    match ty {
        SynType::Path { qself, segments } => {
            if !qself && container_paths(c).contains(path_key(segments@)) && segments@.len() > 0 {
                match segments@.last().arguments {
                    PathArguments::AngleBracketed(args) => if args@.len() > 0 {
                        match args@[0] {
                            GenericArgument::Type(t) => Some(t),
                            GenericArgument::Other => None,
                        }
                    } else {
                        None
                    },
                    _ => None,
                }
            } else {
                None
            }
        },
        SynType::Other => None,
    }
}

/// Builds the `|`-joined key of a path's idents.
fn path_key_of(segments: &Vec<PathSegment>) -> (key: String)
    ensures
        key@ == path_key(segments@),
{
    let mut key = String::new();
    let mut i: usize = 0;
    while i < segments.len()
        invariant
            i <= segments@.len(),
            key@ == path_key(segments@.take(i as int)),
        decreases segments@.len() - i,
    {
        assert(segments@.take(i + 1).drop_last() == segments@.take(i as int));
        key = concat(key.as_str(), segments[i].ident.as_str());
        push_char(&mut key, '|');
        i = i + 1;
    }
    assert(segments@.take(segments@.len() as int) == segments@);
    key
}

/// Whether a path key names the container.
fn is_container_path(key: &str, c: &Container) -> (r: bool)
    ensures
        r == container_paths(*c).contains(key@),
{
    let r = match c {
        Container::Option => same_text(key, "Option|") || same_text(key, "std|option|Option|") || same_text(
            key,
            "core|option|Option|",
        ),
        Container::Vec => same_text(key, "Vec|") || same_text(key, "std|vec|Vec|") || same_text(
            key,
            "alloc|vec|Vec|",
        ),
        Container::HashMap => same_text(key, "HashMap|") || same_text(key, "std|collections|HashMap|"),
    };
    proof {
        let ps = container_paths(*c);
        if r {
            match *c {
                Container::Option => {
                    assert(ps[0] == "Option|"@ && ps[1] == "std|option|Option|"@ && ps[2] == "core|option|Option|"@);
                },
                Container::Vec => {
                    assert(ps[0] == "Vec|"@ && ps[1] == "std|vec|Vec|"@ && ps[2] == "alloc|vec|Vec|"@);
                },
                Container::HashMap => {
                    assert(ps[0] == "HashMap|"@ && ps[1] == "std|collections|HashMap|"@);
                },
            }
        } else {
            assert forall|j: int| 0 <= j < ps.len() implies ps[j] != key@ by {}
        }
    }
    r
}

/// The type inside a container type, if `ty` is one
/// (`extract_inner_type_from_container`).
pub fn extract_inner_type_from_container<'a>(ty: &'a SynType, container: Container) -> (r: Option<&'a SynType>)
    ensures
        match container_inner(*ty, container) {
            Some(t) => r matches Some(found) && *found == t,
            None => r is None,
        },
{
    match ty {
        SynType::Path { qself, segments } => {
            if *qself {
                return None;
            }
            let key = path_key_of(segments);
            if !is_container_path(key.as_str(), &container) {
                return None;
            }
            if segments.len() == 0 {
                return None;
            }
            match &segments[segments.len() - 1].arguments {
                PathArguments::AngleBracketed(args) => {
                    if args.len() == 0 {
                        return None;
                    }
                    match &args[0] {
                        GenericArgument::Type(t) => Some(t),
                        GenericArgument::Other => None,
                    }
                },
                _ => None,
            }
        },
        SynType::Other => None,
    }
}

// ---------------------------------------------------------------------------
// Field attributes
// ---------------------------------------------------------------------------

/// Which way a conversion goes, with the attributes of that direction.
pub enum Direction<F, I> {
    FromProto(F),
    IntoProto(I),
}

impl<F, I> Direction<F, I> {
    pub fn is_into(&self) -> (r: bool)
        ensures
            r == (self is IntoProto),
    {
        match self {
            Direction::IntoProto(_) => true,
            Direction::FromProto(_) => false,
        }
    }

    pub fn is_from(&self) -> (r: bool)
        ensures
            r == (self is FromProto),
    {
        match self {
            Direction::FromProto(_) => true,
            Direction::IntoProto(_) => false,
        }
    }

    /// The direction's name, as error messages print it.
    pub fn to_text(&self) -> (name: &'static str)
        ensures
            self is FromProto ==> name@ == "FromProto"@,
            self is IntoProto ==> name@ == "IntoProto"@,
    {
        match self {
            Direction::FromProto(_) => "FromProto",
            Direction::IntoProto(_) => "IntoProto",
        }
    }
}

/// `#[from_proto(..)]` attributes of a field.
pub struct FromProtoFieldInfo {
    /// Always set the field to `None` when converting from proto.
    pub always_none: bool,
    /// The path of a mapping function.
    pub map: Option<String>,
    pub map_by_ref: bool,
}

/// `#[into_proto(..)]` attributes of a field.
pub struct IntoProtoFieldInfo {
    pub map: Option<String>,
    pub map_by_ref: bool,
}

/// `#[proto(..)]` attributes of a field, with its ident, visibility and type.
pub struct ProtoFieldInfo {
    pub ident: Option<String>,
    /// Whether the field has a visibility (is not private).
    pub is_visible: bool,
    pub ty: SynType,
    pub skip: bool,
    pub name: Option<String>,
    pub required: bool,
}

/// `#[proto(..)]` attributes of an enum variant.
pub struct ProtoVariantInfo {
    pub ident: String,
    pub name: Option<String>,
    pub skip: bool,
}

impl ProtoVariantInfo {
    pub fn is_skipped(&self) -> (r: bool)
        ensures
            r == self.skip,
    {
        self.skip
    }
}

/// Whether a field is left out of conversions: marked `skip`, private, or
/// named with a leading underscore.
pub open spec fn field_skipped(f: ProtoFieldInfo) -> bool {
    f.skip || (f.ident->0@.len() > 0 && f.ident->0@[0] == '_') || !f.is_visible
}

impl ProtoFieldInfo {
    /// The field's ident; fields are named.
    pub fn ident(&self) -> (id: &String)
        requires
            self.ident is Some,
        ensures
            *id == self.ident->0,
    {
        self.ident.as_ref().unwrap()
    }

    pub fn is_skipped(&self) -> (r: bool)
        requires
            self.ident is Some,
        ensures
            r == field_skipped(*self),
    {
        if self.skip {
            return true;
        }
        let v = chars_of(self.ident().as_str());
        (v.len() > 0 && v[0] == '_') || !self.is_visible
    }
}

// ---------------------------------------------------------------------------
// Generated expressions
// ---------------------------------------------------------------------------

/// How the elements of an option or a vector are mapped.
pub enum Mapper {
    /// `Into::into`
    Into,
    /// `|v| path(v)`, or `|v| path(&v)` by reference.
    Call { path: String, by_ref: bool },
}

/// The expression that fills a field.
pub enum ValueExpr {
    /// `value.<field>`
    Field(String),
    /// `<e>.unwrap()`
    Unwrap(Box<ValueExpr>),
    /// `Some(<e>)`
    WrapSome(Box<ValueExpr>),
    /// `None`
    NoneValue,
    /// `<e>.map(<mapper>)`
    MapOption(Box<ValueExpr>, Mapper),
    /// `<e>.into_iter().map(<mapper>).collect::<::std::vec::Vec<_>>()`
    MapVec(Box<ValueExpr>, Mapper),
    /// `<e>.into()`
    Into(Box<ValueExpr>),
    /// `path(<e>)`, or `path(&<e>)` by reference.
    Call { path: String, by_ref: bool, arg: Box<ValueExpr> },
    /// `::std::default::Default::default()`
    Default,
}

/// What the derive emits for a field.
pub enum FieldTokens {
    /// No tokens.
    Nothing,
    /// `<dest>: <value>,`
    Assign { dest: String, value: ValueExpr },
}

/// The mapping function of a direction, if its attributes name one.
pub open spec fn direction_mapper(
    direction: Direction<FromProtoFieldInfo, IntoProtoFieldInfo>,
) -> Option<(String, bool)> {
    match direction {
        Direction::IntoProto(info) => match info.map {
            Some(p) => Some((p, info.map_by_ref)),
            None => None,
        },
        Direction::FromProto(info) => match info.map {
            Some(p) => Some((p, info.map_by_ref)),
            None => None,
        },
    }
}

/// The mapper applied to each element.
pub open spec fn element_mapper(direction: Direction<FromProtoFieldInfo, IntoProtoFieldInfo>) -> Mapper {
    match direction_mapper(direction) {
        Some((path, by_ref)) => Mapper::Call { path, by_ref },
        None => Mapper::Into,
    }
}

/// What the derive emits for a field in a direction.
pub open spec fn field_tokens(
    f: ProtoFieldInfo,
    direction: Direction<FromProtoFieldInfo, IntoProtoFieldInfo>,
) -> FieldTokens {
    let our_name = f.ident->0;
    let proto_name = match f.name {
        Some(n) => n,
        None => our_name,
    };
    let into = direction is IntoProto;
    let dest = if into { proto_name } else { our_name };
    let source = ValueExpr::Field(if into { our_name } else { proto_name });
    if field_skipped(f) {
        if into {
            FieldTokens::Nothing
        } else {
            FieldTokens::Assign { dest, value: ValueExpr::Default }
        }
    } else {
        let is_option = container_inner(f.ty, Container::Option) is Some;
        let is_vec = container_inner(f.ty, Container::Vec) is Some;
        let rhs = if !is_option && !into && f.required {
            ValueExpr::Unwrap(Box::new(source))
        } else {
            source
        };
        let value = if is_option {
            let always_none = match direction {
                Direction::FromProto(info) => info.always_none,
                Direction::IntoProto(_) => false,
            };
            let input = if always_none {
                ValueExpr::NoneValue
            } else if !into && f.required {
                ValueExpr::WrapSome(Box::new(rhs))
            } else {
                rhs
            };
            let mapped = if always_none {
                input
            } else {
                ValueExpr::MapOption(Box::new(input), element_mapper(direction))
            };
            if f.required && into {
                ValueExpr::Unwrap(Box::new(mapped))
            } else {
                mapped
            }
        } else if is_vec {
            ValueExpr::MapVec(Box::new(rhs), element_mapper(direction))
        } else {
            let mapped = match direction_mapper(direction) {
                Some((path, by_ref)) => ValueExpr::Call { path, by_ref, arg: Box::new(rhs) },
                None => rhs,
            };
            let converted = ValueExpr::Into(Box::new(mapped));
            if f.required && into {
                ValueExpr::WrapSome(Box::new(converted))
            } else {
                converted
            }
        };
        FieldTokens::Assign { dest, value }
    }
}

/// The message field an expression reads, if it reads one: the innermost
/// `value.<field>` under unwrapping, wrapping, mapping and conversion.
pub open spec fn field_read(e: ValueExpr) -> Option<String>
    decreases e,
{
    match e {
        ValueExpr::Field(n) => Some(n),
        ValueExpr::Unwrap(b) => field_read(*b),
        ValueExpr::WrapSome(b) => field_read(*b),
        ValueExpr::MapOption(b, _) => field_read(*b),
        ValueExpr::MapVec(b, _) => field_read(*b),
        ValueExpr::Into(b) => field_read(*b),
        ValueExpr::Call { arg, .. } => field_read(*arg),
        ValueExpr::NoneValue => None,
        ValueExpr::Default => None,
    }
}

/// The name a field has in the proto message: its `#[proto(name)]` when
/// given, else its ident.
pub open spec fn proto_field_name(f: ProtoFieldInfo) -> String {
    match f.name {
        Some(n) => n,
        None => f.ident->0,
    }
}

/// Whether the derive fills a field from nothing in the FromProto direction:
/// an option field whose attributes say it is always `None`.
pub open spec fn filled_with_none(f: ProtoFieldInfo, direction: Direction<FromProtoFieldInfo, IntoProtoFieldInfo>) -> bool {
    &&& direction matches Direction::FromProto(info) && info.always_none
    &&& container_inner(f.ty, Container::Option) is Some
}

/// Whether the tokens for a field write it under the name of the target
/// side and read it under the name of the source side: IntoProto reads the
/// Rust field (`value.<ident>`) and writes the proto field under its proto
/// name; FromProto reads the proto field (`value.<proto name>`) and writes
/// the Rust field. An always-`None` option reads nothing.
pub open spec fn writes_and_reads(
    f: ProtoFieldInfo,
    direction: Direction<FromProtoFieldInfo, IntoProtoFieldInfo>,
    t: FieldTokens,
) -> bool {
    match t {
        FieldTokens::Assign { dest, value } => dest == (
        if direction is IntoProto {
            proto_field_name(f)
        } else {
            f.ident->0
        }) && field_read(value) == (if filled_with_none(f, direction) {
            None::<String>
        } else if direction is IntoProto {
            Some(f.ident->0)
        } else {
            Some(proto_field_name(f))
        }),
        FieldTokens::Nothing => false,
    }
}

/// How many times an expression unwraps.
pub open spec fn unwraps(e: ValueExpr) -> nat
    decreases e,
{
    match e {
        ValueExpr::Unwrap(b) => 1 + unwraps(*b),
        ValueExpr::WrapSome(b) => unwraps(*b),
        ValueExpr::MapOption(b, _) => unwraps(*b),
        ValueExpr::MapVec(b, _) => unwraps(*b),
        ValueExpr::Into(b) => unwraps(*b),
        ValueExpr::Call { arg, .. } => unwraps(*arg),
        _ => 0,
    }
}

/// How many times an expression wraps a value in `Some`.
pub open spec fn some_wraps(e: ValueExpr) -> nat
    decreases e,
{
    match e {
        ValueExpr::Unwrap(b) => some_wraps(*b),
        ValueExpr::WrapSome(b) => 1 + some_wraps(*b),
        ValueExpr::MapOption(b, _) => some_wraps(*b),
        ValueExpr::MapVec(b, _) => some_wraps(*b),
        ValueExpr::Into(b) => some_wraps(*b),
        ValueExpr::Call { arg, .. } => some_wraps(*arg),
        _ => 0,
    }
}

/// How many times an expression converts a whole value with `.into()`.
pub open spec fn into_calls(e: ValueExpr) -> nat
    decreases e,
{
    match e {
        ValueExpr::Unwrap(b) => into_calls(*b),
        ValueExpr::WrapSome(b) => into_calls(*b),
        ValueExpr::MapOption(b, _) => into_calls(*b),
        ValueExpr::MapVec(b, _) => into_calls(*b),
        ValueExpr::Into(b) => 1 + into_calls(*b),
        ValueExpr::Call { arg, .. } => into_calls(*arg),
        _ => 0,
    }
}

/// The mappers an expression applies, outermost first: those of option and
/// vector maps, and a mapping function called on the whole value.
pub open spec fn mappers_used(e: ValueExpr) -> Seq<Mapper>
    decreases e,
{
    match e {
        ValueExpr::Unwrap(b) => mappers_used(*b),
        ValueExpr::WrapSome(b) => mappers_used(*b),
        ValueExpr::MapOption(b, m) => seq![m] + mappers_used(*b),
        ValueExpr::MapVec(b, m) => seq![m] + mappers_used(*b),
        ValueExpr::Into(b) => mappers_used(*b),
        ValueExpr::Call { path, by_ref, arg } => seq![Mapper::Call { path, by_ref }] + mappers_used(*arg),
        _ => seq![],
    }
}

/// The conversion the derive makes of a field that is not skipped:
/// - a required field is unwrapped once: from the proto side when the Rust
///   field is no option, on the way to the proto side when it is one;
/// - a required field is wrapped in `Some` once: a proto value going into a
///   Rust option, or a converted bare value going to the proto side;
/// - options and vectors are mapped element by element, and a bare value
///   is converted once with `.into()`;
/// - the mapping function the attributes name is applied, exactly once,
///   else elements go through `Into::into`.
/// An always-`None` option is set to `None` and applies nothing.
pub open spec fn converts_as_declared(
    f: ProtoFieldInfo,
    direction: Direction<FromProtoFieldInfo, IntoProtoFieldInfo>,
    t: FieldTokens,
) -> bool {
    let into = direction is IntoProto;
    let is_option = container_inner(f.ty, Container::Option) is Some;
    let is_vec = container_inner(f.ty, Container::Vec) is Some;
    let bare = !is_option && !is_vec;
    match t {
        FieldTokens::Assign { dest, value } => if filled_with_none(f, direction) {
            value == ValueExpr::NoneValue
        } else {
            &&& unwraps(value) == (if f.required && ((!into && !is_option) || (into && is_option)) {
                1nat
            } else {
                0nat
            })
            &&& some_wraps(value) == (if f.required && ((!into && is_option) || (into && bare)) {
                1nat
            } else {
                0nat
            })
            &&& into_calls(value) == (if bare {
                1nat
            } else {
                0nat
            })
            &&& mappers_used(value) == (if !bare || direction_mapper(direction) is Some {
                seq![element_mapper(direction)]
            } else {
                Seq::<Mapper>::empty()
            })
        },
        FieldTokens::Nothing => false,
    }
}

/// The conversion made of a field that is not skipped is the one its type
/// and attributes declare (see `converts_as_declared`).
pub proof fn lemma_field_converted_as_declared(
    f: ProtoFieldInfo,
    direction: Direction<FromProtoFieldInfo, IntoProtoFieldInfo>,
)
    requires
        f.ident is Some,
        !field_skipped(f),
    ensures
        converts_as_declared(f, direction, field_tokens(f, direction)),
{
    reveal_with_fuel(unwraps, 5);
    reveal_with_fuel(some_wraps, 5);
    reveal_with_fuel(into_calls, 5);
    reveal_with_fuel(mappers_used, 5);
    let t = field_tokens(f, direction);
    if let FieldTokens::Assign { dest, value } = t {
        if !filled_with_none(f, direction) {
            assert(mappers_used(value) =~= (if !(container_inner(f.ty, Container::Option) is None
                && container_inner(f.ty, Container::Vec) is None) || direction_mapper(direction) is Some {
                seq![element_mapper(direction)]
            } else {
                Seq::<Mapper>::empty()
            }));
        }
    }
}

/// Which field the generated code reads and which it writes, whatever the
/// field's type (bare, option or vector): IntoProto reads the Rust field
/// (`value.<ident>`) and writes the proto field under its proto name;
/// FromProto reads the proto field (`value.<proto name>`) and writes the
/// Rust field. A skipped field is not written in IntoProto and gets its
/// default in FromProto; an always-`None` option reads nothing.
pub proof fn lemma_field_read_and_written(
    f: ProtoFieldInfo,
    direction: Direction<FromProtoFieldInfo, IntoProtoFieldInfo>,
)
    requires
        f.ident is Some,
    ensures
        field_skipped(f) && direction is IntoProto ==> field_tokens(f, direction) is Nothing,
        field_skipped(f) && direction is FromProto ==> field_tokens(f, direction) == (FieldTokens::Assign {
            dest: f.ident->0,
            value: ValueExpr::Default,
        }),
        !field_skipped(f) ==> writes_and_reads(f, direction, field_tokens(f, direction)),
{
    reveal_with_fuel(field_read, 5);
}

/// The mapping function of a direction, if any.
fn wrap_with_mapper(direction: &Direction<FromProtoFieldInfo, IntoProtoFieldInfo>) -> (r: Option<(String, bool)>)
    ensures
        r == direction_mapper(*direction),
{
    match direction {
        Direction::IntoProto(info) => match &info.map {
            Some(p) => Some((p.clone(), info.map_by_ref)),
            None => None,
        },
        Direction::FromProto(info) => match &info.map {
            Some(p) => Some((p.clone(), info.map_by_ref)),
            None => None,
        },
    }
}

fn mapper_of(direction: &Direction<FromProtoFieldInfo, IntoProtoFieldInfo>) -> (m: Mapper)
    ensures
        m == element_mapper(*direction),
{
    match wrap_with_mapper(direction) {
        Some((path, by_ref)) => Mapper::Call { path, by_ref },
        None => Mapper::Into,
    }
}

impl ProtoFieldInfo {
    /// What the derive emits for this field in a direction.
    pub fn gen_tokens(self, direction: Direction<FromProtoFieldInfo, IntoProtoFieldInfo>) -> (tokens:
        FieldTokens)
        requires
            self.ident is Some,
        ensures
            tokens == field_tokens(self, direction),
            !field_skipped(self) ==> writes_and_reads(self, direction, tokens),
            !field_skipped(self) ==> converts_as_declared(self, direction, tokens),
            field_skipped(self) && direction is IntoProto ==> tokens is Nothing,
            field_skipped(self) && direction is FromProto ==> tokens == (FieldTokens::Assign {
                dest: self.ident->0,
                value: ValueExpr::Default,
            }),
    {
        proof {
            lemma_field_read_and_written(self, direction);
            if !field_skipped(self) {
                lemma_field_converted_as_declared(self, direction);
            }
        }
        let into = direction.is_into();
        let our_name = self.ident().clone();
        let proto_name = match &self.name {
            Some(n) => n.clone(),
            None => our_name.clone(),
        };
        let dest = if into { proto_name.clone() } else { our_name.clone() };
        let source = ValueExpr::Field(if into { our_name } else { proto_name });
        if self.is_skipped() {
            return match direction {
                Direction::IntoProto(_) => FieldTokens::Nothing,
                Direction::FromProto(_) => FieldTokens::Assign { dest, value: ValueExpr::Default },
            };
        }
        let is_option = extract_inner_type_from_container(&self.ty, Container::Option).is_some();
        let is_vec = extract_inner_type_from_container(&self.ty, Container::Vec).is_some();
        let rhs = if !is_option && !into && self.required {
            ValueExpr::Unwrap(Box::new(source))
        } else {
            source
        };
        let value = if is_option {
            let always_none = match &direction {
                Direction::FromProto(info) => info.always_none,
                Direction::IntoProto(_) => false,
            };
            let input = if always_none {
                ValueExpr::NoneValue
            } else if !into && self.required {
                ValueExpr::WrapSome(Box::new(rhs))
            } else {
                rhs
            };
            let mapped = if always_none {
                input
            } else {
                ValueExpr::MapOption(Box::new(input), mapper_of(&direction))
            };
            if self.required && into {
                ValueExpr::Unwrap(Box::new(mapped))
            } else {
                mapped
            }
        } else if is_vec {
            ValueExpr::MapVec(Box::new(rhs), mapper_of(&direction))
        } else {
            let mapped = match wrap_with_mapper(&direction) {
                Some((path, by_ref)) => ValueExpr::Call { path, by_ref, arg: Box::new(rhs) },
                None => rhs,
            };
            let converted = ValueExpr::Into(Box::new(mapped));
            if self.required && into {
                ValueExpr::WrapSome(Box::new(converted))
            } else {
                converted
            }
        };
        FieldTokens::Assign { dest, value }
    }
}


// ---------------------------------------------------------------------------
// Rendering
// ---------------------------------------------------------------------------

/// The Rust text of a mapper.
pub open spec fn mapper_text(m: Mapper) -> Seq<char> {
    match m {
        Mapper::Into => "Into::into"@,
        Mapper::Call { path, by_ref } => "|v| "@ + path@ + "("@ + (if by_ref { "&"@ } else { ""@ }) + "v)"@,
    }
}

/// The Rust text of an expression.
pub open spec fn expr_text(e: ValueExpr) -> Seq<char>
    decreases e,
{
    match e {
        ValueExpr::Field(name) => "value."@ + name@,
        ValueExpr::Unwrap(inner) => expr_text(*inner) + ".unwrap()"@,
        ValueExpr::WrapSome(inner) => "Some("@ + expr_text(*inner) + ")"@,
        ValueExpr::NoneValue => "None"@,
        ValueExpr::MapOption(inner, m) => expr_text(*inner) + ".map("@ + mapper_text(m) + ")"@,
        ValueExpr::MapVec(inner, m) => expr_text(*inner) + ".into_iter().map("@ + mapper_text(m)
            + ").collect::<::std::vec::Vec<_>>()"@,
        ValueExpr::Into(inner) => expr_text(*inner) + ".into()"@,
        ValueExpr::Call { path, by_ref, arg } => path@ + "("@ + (if by_ref { "&"@ } else { ""@ })
            + expr_text(*arg) + ")"@,
        ValueExpr::Default => "::std::default::Default::default()"@,
    }
}

/// The Rust text of what the derive emits for a field.
pub open spec fn tokens_text(t: FieldTokens) -> Seq<char> {
    match t {
        FieldTokens::Nothing => ""@,
        FieldTokens::Assign { dest, value } => dest@ + ": "@ + expr_text(value) + ","@,
    }
}

fn render_mapper(m: &Mapper) -> (text: String)
    ensures
        text@ == mapper_text(*m),
{
    match m {
        Mapper::Into => String::from_str("Into::into"),
        Mapper::Call { path, by_ref } => {
            let t = concat("|v| ", path.as_str());
            let t = concat(t.as_str(), "(");
            let t = concat(t.as_str(), if *by_ref { "&" } else { "" });
            concat(t.as_str(), "v)")
        },
    }
}

fn render_expr(e: &ValueExpr) -> (text: String)
    ensures
        text@ == expr_text(*e),
    decreases e,
{
    match e {
        ValueExpr::Field(name) => concat("value.", name.as_str()),
        ValueExpr::Unwrap(inner) => {
            let t = render_expr(inner);
            concat(t.as_str(), ".unwrap()")
        },
        ValueExpr::WrapSome(inner) => {
            let t = render_expr(inner);
            let t = concat("Some(", t.as_str());
            concat(t.as_str(), ")")
        },
        ValueExpr::NoneValue => String::from_str("None"),
        ValueExpr::MapOption(inner, m) => {
            let t = render_expr(inner);
            let t = concat(t.as_str(), ".map(");
            let t = concat(t.as_str(), render_mapper(m).as_str());
            concat(t.as_str(), ")")
        },
        ValueExpr::MapVec(inner, m) => {
            let t = render_expr(inner);
            let t = concat(t.as_str(), ".into_iter().map(");
            let t = concat(t.as_str(), render_mapper(m).as_str());
            concat(t.as_str(), ").collect::<::std::vec::Vec<_>>()")
        },
        ValueExpr::Into(inner) => {
            let t = render_expr(inner);
            concat(t.as_str(), ".into()")
        },
        ValueExpr::Call { path, by_ref, arg } => {
            let t = concat(path.as_str(), "(");
            let t = concat(t.as_str(), if *by_ref { "&" } else { "" });
            let t = concat(t.as_str(), render_expr(arg).as_str());
            concat(t.as_str(), ")")
        },
        ValueExpr::Default => String::from_str("::std::default::Default::default()"),
    }
}

/// Whether `needle` occurs in `hay` as a contiguous piece.
pub open spec fn occurs_in(needle: Seq<char>, hay: Seq<char>) -> bool {
    exists|i: int| 0 <= i && i + needle.len() <= hay.len() && #[trigger] hay.subrange(i, i + needle.len()) == needle
}

proof fn lemma_occurs_in_middle(needle: Seq<char>, a: Seq<char>, b: Seq<char>, c: Seq<char>)
    requires
        occurs_in(needle, b),
    ensures
        occurs_in(needle, a + b + c),
{
    let i = choose|i: int| 0 <= i && i + needle.len() <= b.len() && #[trigger] b.subrange(i, i + needle.len()) == needle;
    let j = a.len() + i;
    assert((a + b + c).subrange(j, j + needle.len()) =~= b.subrange(i, i + needle.len()));
}

/// The text of an expression that reads a message field shows that read:
/// `value.<field>` occurs in it.
pub proof fn lemma_text_shows_field_read(e: ValueExpr)
    ensures
        field_read(e) matches Some(n) ==> occurs_in("value."@ + n@, expr_text(e)),
    decreases e,
{
    reveal_strlit("");
    match e {
        ValueExpr::Field(n) => {
            let t = "value."@ + n@;
            assert(expr_text(e) == t);
            assert(expr_text(e).subrange(0int, 0int + t.len()) =~= t);
        },
        ValueExpr::Unwrap(b) => {
            lemma_text_shows_field_read(*b);
            if let Some(n) = field_read(*b) {
                lemma_occurs_in_middle("value."@ + n@, ""@, expr_text(*b), ".unwrap()"@);
                assert(""@ + expr_text(*b) + ".unwrap()"@ =~= expr_text(e));
            }
        },
        ValueExpr::WrapSome(b) => {
            lemma_text_shows_field_read(*b);
            if let Some(n) = field_read(*b) {
                lemma_occurs_in_middle("value."@ + n@, "Some("@, expr_text(*b), ")"@);
            }
        },
        ValueExpr::MapOption(b, m) => {
            lemma_text_shows_field_read(*b);
            if let Some(n) = field_read(*b) {
                lemma_occurs_in_middle("value."@ + n@, ""@, expr_text(*b), ".map("@ + mapper_text(m) + ")"@);
                assert(""@ + expr_text(*b) + (".map("@ + mapper_text(m) + ")"@) =~= expr_text(e));
            }
        },
        ValueExpr::MapVec(b, m) => {
            lemma_text_shows_field_read(*b);
            if let Some(n) = field_read(*b) {
                let tail = ".into_iter().map("@ + mapper_text(m) + ").collect::<::std::vec::Vec<_>>()"@;
                lemma_occurs_in_middle("value."@ + n@, ""@, expr_text(*b), tail);
                assert(""@ + expr_text(*b) + tail =~= expr_text(e));
            }
        },
        ValueExpr::Into(b) => {
            lemma_text_shows_field_read(*b);
            if let Some(n) = field_read(*b) {
                lemma_occurs_in_middle("value."@ + n@, ""@, expr_text(*b), ".into()"@);
                assert(""@ + expr_text(*b) + ".into()"@ =~= expr_text(e));
            }
        },
        ValueExpr::Call { path, by_ref, arg } => {
            lemma_text_shows_field_read(*arg);
            if let Some(n) = field_read(*arg) {
                let head = path@ + "("@ + (if by_ref { "&"@ } else { ""@ });
                lemma_occurs_in_middle("value."@ + n@, head, expr_text(*arg), ")"@);
            }
        },
        _ => {},
    }
}

/// The text emitted for a field assignment starts with the written field's
/// name and a colon, and shows the message field the value is read from.
pub proof fn lemma_tokens_text_shape(t: FieldTokens)
    ensures
        t matches FieldTokens::Assign { dest, value } ==> {
            &&& tokens_text(t).subrange(0, dest@.len() + 2int) == dest@ + ": "@
            &&& field_read(value) matches Some(n) ==> occurs_in("value."@ + n@, tokens_text(t))
        },
{
    reveal_strlit(": ");
    if let FieldTokens::Assign { dest, value } = t {
        lemma_text_shows_field_read(value);
        assert(tokens_text(t).subrange(0, dest@.len() + 2int) =~= dest@ + ": "@);
        if let Some(n) = field_read(value) {
            lemma_occurs_in_middle("value."@ + n@, dest@ + ": "@, expr_text(value), ","@);
        }
    }
}

impl FieldTokens {
    /// The Rust text of the emitted tokens.
    pub fn to_text(&self) -> (text: String)
        ensures
            text@ == tokens_text(*self),
            *self matches FieldTokens::Assign { dest, value } ==> text@.subrange(0, dest@.len() + 2int) == dest@
                + ": "@,
            *self matches FieldTokens::Assign { value, .. } ==> (field_read(value) matches Some(n) ==> occurs_in(
                "value."@ + n@,
                text@,
            )),
    {
        proof {
            lemma_tokens_text_shape(*self);
        }
        match self {
            FieldTokens::Nothing => {
                proof {
                    reveal_strlit("");
                }
                String::new()
            },
            FieldTokens::Assign { dest, value } => {
                let t = concat(dest.as_str(), ": ");
                let t = concat(t.as_str(), render_expr(value).as_str());
                concat(t.as_str(), ",")
            },
        }
    }
}


// ---------------------------------------------------------------------------
// Defaults of optional messages
// ---------------------------------------------------------------------------

/// Messages with a shared default instance.
pub trait ProstLazyDefault {
    fn default_instance() -> &'static Self;
}

/// Reading an optional message with a fallback to its default instance.
pub trait ProstOptionExt {
    type Item;

    fn get_or_default(&self) -> &Self::Item;
}

impl<T: ProstLazyDefault + 'static> ProstOptionExt for Option<T> {
    type Item = T;

    /// The message if present, else the default instance.
    fn get_or_default(&self) -> (r: &T)
        ensures
            self matches Some(v) ==> *r == v,
    {
        match self {
            Some(v) => v,
            None => T::default_instance(),
        }
    }
}

} // verus!
