//! The signature mapper: from a function's declared parameter and return
//! shapes, decide how many events to pull from a decoded batch and whether
//! each is mandatory, and how the returned value folds back into a batch.
//! The declared types are inspected as an abstract syntax of paths and
//! generic arguments; the mapping is total and decided from type structure
//! alone, once, when the adapter is registered.

use vstd::prelude::*;
use vstd::slice::slice_to_vec;
use crate::bytes::bytes_eq;

verus! {

/// An abstract declared type: a path of segments, each an identifier with
/// generic arguments, or any other shape of type.
pub enum Ty {
    Path(TyPath),
    Other,
}

/// A type path, with whether it starts with a leading double colon.
pub struct TyPath {
    pub leading_colon: bool,
    pub segments: Vec<Segment>,
}

/// One path segment: an identifier and its generic arguments, empty when
/// the segment has none.
pub struct Segment {
    pub ident: Vec<u8>,
    pub args: Vec<GenericArg>,
}

/// One generic argument: a type, or something else (a lifetime, a const).
pub enum GenericArg {
    TypeArg(Ty),
    OtherArg,
}

/// A declared function parameter: a receiver, or a typed argument.
pub enum FnArg {
    Receiver,
    Typed(Ty),
}

/// A declared return type: absent, or a type.
pub enum ReturnType {
    Default,
    Type(Ty),
}

/// How one parameter consumes the decoded batch.
#[derive(Clone, Copy, PartialEq, Eq, Structural, Debug)]
pub enum ParameterSpec {
    RequiredEvent,
    OptionalEvent,
}

/// How the returned value folds into a batch of outbound events.
#[derive(Clone, Copy, PartialEq, Eq, Structural, Debug)]
pub enum ReturnSpec {
    SingleEvent,
    OptionalEvent,
    EventSequence,
}

/// Why a declared signature was rejected when the adapter was registered: a
/// parameter, named by its 1-based position, is neither an event nor an
/// optional event, or the return shape is not a two-armed result over an
/// accepted value type.
#[derive(Clone, Copy, PartialEq, Eq, Structural, Debug)]
pub enum SignatureError {
    Parameter(usize),
    Return,
}

/// The dispatch table derived from an accepted signature.
#[derive(Debug)]
pub struct FunctionSpec {
    pub params: Vec<ParameterSpec>,
    pub ret: ReturnSpec,
}

// "Event"
pub open spec fn ident_event() -> Seq<u8> {
    seq![0x45, 0x76, 0x65, 0x6e, 0x74]
}

fn ident_event_bytes() -> (r: Vec<u8>)
    ensures
        r@ == ident_event(),
{
    let a: [u8; 5] = [0x45, 0x76, 0x65, 0x6e, 0x74];
    let r = slice_to_vec(&a);
    assert(r@ =~= ident_event());
    r
}

// "Vec"
pub open spec fn ident_vec() -> Seq<u8> {
    seq![0x56, 0x65, 0x63]
}

fn ident_vec_bytes() -> (r: Vec<u8>)
    ensures
        r@ == ident_vec(),
{
    let a: [u8; 3] = [0x56, 0x65, 0x63];
    let r = slice_to_vec(&a);
    assert(r@ =~= ident_vec());
    r
}

// "Option"
pub open spec fn ident_option() -> Seq<u8> {
    seq![0x4f, 0x70, 0x74, 0x69, 0x6f, 0x6e]
}

fn ident_option_bytes() -> (r: Vec<u8>)
    ensures
        r@ == ident_option(),
{
    let a: [u8; 6] = [0x4f, 0x70, 0x74, 0x69, 0x6f, 0x6e];
    let r = slice_to_vec(&a);
    assert(r@ =~= ident_option());
    r
}

// "Result"
pub open spec fn ident_result() -> Seq<u8> {
    seq![0x52, 0x65, 0x73, 0x75, 0x6c, 0x74]
}

fn ident_result_bytes() -> (r: Vec<u8>)
    ensures
        r@ == ident_result(),
{
    let a: [u8; 6] = [0x52, 0x65, 0x73, 0x75, 0x6c, 0x74];
    let r = slice_to_vec(&a);
    assert(r@ =~= ident_result());
    r
}

/// Whether a declared type is exactly the event type: a path whose last
/// segment is the event identifier.
pub open spec fn spec_is_event(ty: Ty) -> bool {
    match ty {
        Ty::Path(p) => p.segments@.len() > 0 && p.segments@.last().ident@ == ident_event(),
        Ty::Other => false,
    }
}

pub fn is_event(ty: &Ty) -> (r: bool)
    ensures
        r == spec_is_event(*ty),
{
    match ty {
        Ty::Path(p) => {
            let n = p.segments.len();
            if n == 0 {
                false
            } else {
                let ev = ident_event_bytes();
                bytes_eq(&p.segments[n - 1].ident, &ev)
            }
        },
        Ty::Other => false,
    }
}

/// The element type of a bare, single-segment generic path such as a
/// vector or an optional: its first generic argument, when that is a type.
pub open spec fn spec_extract_generic(ty: Ty, name: Seq<u8>) -> Option<Ty> {
    match ty {
        Ty::Path(p) => {
            if !p.leading_colon && p.segments@.len() == 1 && p.segments@[0].ident@ == name
                && p.segments@[0].args@.len() > 0 {
                match p.segments@[0].args@[0] {
                    GenericArg::TypeArg(t) => Some(t),
                    GenericArg::OtherArg => None,
                }
            } else {
                None
            }
        },
        Ty::Other => None,
    }
}

fn extract_generic<'a>(ty: &'a Ty, name: &Vec<u8>) -> (r: Option<&'a Ty>)
    ensures
        match r {
            Some(t) => spec_extract_generic(*ty, name@) == Some(*t),
            None => spec_extract_generic(*ty, name@) is None,
        },
{
    match ty {
        Ty::Path(p) => {
            if p.leading_colon || p.segments.len() != 1 {
                return None;
            }
            if !bytes_eq(&p.segments[0].ident, name) {
                return None;
            }
            if p.segments[0].args.len() == 0 {
                return None;
            }
            match &p.segments[0].args[0] {
                GenericArg::TypeArg(t) => Some(t),
                GenericArg::OtherArg => None,
            }
        },
        Ty::Other => None,
    }
}

/// The element type of a declared `Vec<..>`.
pub open spec fn spec_extract_from_vec(ty: Ty) -> Option<Ty> {
    spec_extract_generic(ty, ident_vec())
}

pub fn extract_type_from_vec(ty: &Ty) -> (r: Option<&Ty>)
    ensures
        match r {
            Some(t) => spec_extract_from_vec(*ty) == Some(*t),
            None => spec_extract_from_vec(*ty) is None,
        },
{
    let name = ident_vec_bytes();
    extract_generic(ty, &name)
}

/// The element type of a declared `Option<..>`.
pub open spec fn spec_extract_from_option(ty: Ty) -> Option<Ty> {
    spec_extract_generic(ty, ident_option())
}

pub fn extract_type_from_option(ty: &Ty) -> (r: Option<&Ty>)
    ensures
        match r {
            Some(t) => spec_extract_from_option(*ty) == Some(*t),
            None => spec_extract_from_option(*ty) is None,
        },
{
    let name = ident_option_bytes();
    extract_generic(ty, &name)
}

/// Whether a declared type is a vector of events.
pub open spec fn spec_is_vec_event(ty: Ty) -> bool {
    match spec_extract_from_vec(ty) {
        Some(t) => spec_is_event(t),
        None => false,
    }
}

pub fn is_vec_event(ty: &Ty) -> (r: bool)
    ensures
        r == spec_is_vec_event(*ty),
{
    match extract_type_from_vec(ty) {
        Some(t) => is_event(t),
        None => false,
    }
}

/// Whether a declared type is an optional event.
pub open spec fn spec_is_option_event(ty: Ty) -> bool {
    match spec_extract_from_option(ty) {
        Some(t) => spec_is_event(t),
        None => false,
    }
}

pub fn is_option_event(ty: &Ty) -> (r: bool)
    ensures
        r == spec_is_option_event(*ty),
{
    match extract_type_from_option(ty) {
        Some(t) => is_event(t),
        None => false,
    }
}

/// The type arguments among a list of generic arguments, in order.
pub open spec fn spec_type_args(args: Seq<GenericArg>) -> Seq<Ty>
    decreases args.len(),
{
    if args.len() == 0 {
        Seq::<Ty>::empty()
    } else {
        match args[0] {
            GenericArg::TypeArg(t) => seq![t] + spec_type_args(args.drop_first()),
            GenericArg::OtherArg => spec_type_args(args.drop_first()),
        }
    }
}

proof fn lemma_type_args_append(a: Seq<GenericArg>, b: Seq<GenericArg>)
    ensures
        spec_type_args(a + b) == spec_type_args(a) + spec_type_args(b),
    decreases a.len(),
{
    if a.len() == 0 {
        assert(a + b =~= b);
        assert(spec_type_args(a) + spec_type_args(b) =~= spec_type_args(b));
    } else {
        assert((a + b).drop_first() =~= a.drop_first() + b);
        lemma_type_args_append(a.drop_first(), b);
        assert(spec_type_args(a + b) =~= spec_type_args(a) + spec_type_args(b));
    }
}

/// The success and failure arms of a declared bare `Result<..>`: its first
/// two type arguments.
pub open spec fn spec_extract_from_result(ty: Ty) -> Option<(Ty, Ty)> {
    match ty {
        Ty::Path(p) => {
            if !p.leading_colon && p.segments@.len() == 1 && p.segments@[0].ident@
                == ident_result() {
                let ts = spec_type_args(p.segments@[0].args@);
                if ts.len() >= 2 {
                    Some((ts[0], ts[1]))
                } else {
                    None
                }
            } else {
                None
            }
        },
        Ty::Other => None,
    }
}

pub fn extract_types_from_result(ty: &Ty) -> (r: Option<(&Ty, &Ty)>)
    ensures
        match r {
            Some((a, b)) => spec_extract_from_result(*ty) == Some((*a, *b)),
            None => spec_extract_from_result(*ty) is None,
        },
{
    match ty {
        Ty::Path(p) => {
            if p.leading_colon || p.segments.len() != 1 {
                return None;
            }
            let name = ident_result_bytes();
            if !bytes_eq(&p.segments[0].ident, &name) {
                return None;
            }
            let args = &p.segments[0].args;
            let mut first: Option<&Ty> = None;
            let mut second: Option<&Ty> = None;
            let mut i: usize = 0;
            while i < args.len()
                invariant
                    i <= args@.len(),
                    spec_type_args(args@.take(i as int)).len() == 0 <==> first is None,
                    spec_type_args(args@.take(i as int)).len() == 1 <==> (first is Some
                        && second is None),
                    first matches Some(t) ==> spec_type_args(args@.take(i as int)).len() > 0
                        && spec_type_args(args@.take(i as int))[0] == *t,
                    second matches Some(t) ==> spec_type_args(args@.take(i as int)).len() >= 2
                        && spec_type_args(args@.take(i as int))[1] == *t,
                decreases args@.len() - i,
            {
                proof {
                    assert(args@.take(i as int + 1) =~= args@.take(i as int) + seq![
                        args@[i as int],
                    ]);
                    lemma_type_args_append(args@.take(i as int), seq![args@[i as int]]);
                    assert(seq![args@[i as int]].drop_first() =~= Seq::<GenericArg>::empty());
                    assert(spec_type_args(Seq::<GenericArg>::empty()) =~= Seq::<Ty>::empty());
                    let prev = spec_type_args(args@.take(i as int));
                    match args@[i as int] {
                        GenericArg::TypeArg(t) => {
                            assert(spec_type_args(seq![args@[i as int]]) =~= seq![t]);
                            assert(spec_type_args(args@.take(i as int + 1)) =~= prev + seq![t]);
                        },
                        GenericArg::OtherArg => {
                            assert(spec_type_args(seq![args@[i as int]]) =~= Seq::<Ty>::empty());
                            assert(spec_type_args(args@.take(i as int + 1)) =~= prev);
                        },
                    }
                }
                match &args[i] {
                    GenericArg::TypeArg(t) => {
                        if first.is_none() {
                            first = Some(t);
                        } else if second.is_none() {
                            second = Some(t);
                        }
                    },
                    GenericArg::OtherArg => {},
                }
                i = i + 1;
            }
            proof {
                assert(args@.take(args@.len() as int) =~= args@);
            }
            match (first, second) {
                (Some(a), Some(b)) => Some((a, b)),
                _ => None,
            }
        },
        Ty::Other => None,
    }
}

/// The declared type of a function argument; a receiver has none.
pub open spec fn spec_type_of_fn_arg(arg: FnArg) -> Option<Ty> {
    match arg {
        FnArg::Typed(t) => Some(t),
        FnArg::Receiver => None,
    }
}

pub fn extract_type_from_fn_arg(arg: &FnArg) -> (r: Option<&Ty>)
    ensures
        match r {
            Some(t) => spec_type_of_fn_arg(*arg) == Some(*t),
            None => spec_type_of_fn_arg(*arg) is None,
        },
{
    match arg {
        FnArg::Typed(t) => Some(t),
        FnArg::Receiver => None,
    }
}

/// What one declared parameter demands of the batch: an event makes it
/// required, an optional event optional, anything else is rejected.
pub open spec fn spec_param_spec(arg: FnArg) -> Option<ParameterSpec> {
    match spec_type_of_fn_arg(arg) {
        Some(ty) => {
            if spec_is_event(ty) {
                Some(ParameterSpec::RequiredEvent)
            } else if spec_is_option_event(ty) {
                Some(ParameterSpec::OptionalEvent)
            } else {
                None
            }
        },
        None => None,
    }
}

pub fn param_spec_of(arg: &FnArg) -> (r: Option<ParameterSpec>)
    ensures
        r == spec_param_spec(*arg),
{
    match extract_type_from_fn_arg(arg) {
        Some(ty) => {
            if is_event(ty) {
                Some(ParameterSpec::RequiredEvent)
            } else if is_option_event(ty) {
                Some(ParameterSpec::OptionalEvent)
            } else {
                None
            }
        },
        None => None,
    }
}

/// How a declared return type folds into a batch: the success arm of a
/// result must be a vector of events, an optional event, or an event.
pub open spec fn spec_return_spec(rt: ReturnType) -> Option<ReturnSpec> {
    match rt {
        ReturnType::Type(ty) => match spec_extract_from_result(ty) {
            Some((left, _right)) => {
                if spec_is_vec_event(left) {
                    Some(ReturnSpec::EventSequence)
                } else if spec_is_option_event(left) {
                    Some(ReturnSpec::OptionalEvent)
                } else if spec_is_event(left) {
                    Some(ReturnSpec::SingleEvent)
                } else {
                    None
                }
            },
            None => None,
        },
        ReturnType::Default => None,
    }
}

pub fn map_output(rt: &ReturnType) -> (r: Option<ReturnSpec>)
    ensures
        r == spec_return_spec(*rt),
{
    match rt {
        ReturnType::Type(ty) => match extract_types_from_result(ty) {
            Some((left, _right)) => {
                if is_vec_event(left) {
                    Some(ReturnSpec::EventSequence)
                } else if is_option_event(left) {
                    Some(ReturnSpec::OptionalEvent)
                } else if is_event(left) {
                    Some(ReturnSpec::SingleEvent)
                } else {
                    None
                }
            },
            None => None,
        },
        ReturnType::Default => None,
    }
}

/// Validates a declared signature and derives its dispatch table: one
/// parameter spec per declared parameter, in order, and the return spec.
/// The first unacceptable parameter names the error by its 1-based
/// position; with acceptable parameters, an unacceptable return shape is
/// the error.
pub fn derive_function_spec(inputs: &Vec<FnArg>, output: &ReturnType) -> (r: Result<
    FunctionSpec,
    SignatureError,
>)
    ensures
        r matches Ok(fs) ==> fs.params@.len() == inputs@.len() && (forall|i: int|
            0 <= i < inputs@.len() ==> Some(fs.params@[i]) == spec_param_spec(inputs@[i]))
            && Some(fs.ret) == spec_return_spec(*output),
        r matches Err(SignatureError::Parameter(pos)) ==> 1 <= pos <= inputs@.len()
            && spec_param_spec(inputs@[pos - 1]) is None && (forall|j: int|
            0 <= j < pos - 1 ==> spec_param_spec(inputs@[j]) is Some),
        r matches Err(SignatureError::Return) ==> spec_return_spec(*output) is None && (forall|
            j: int,
        |
            0 <= j < inputs@.len() ==> spec_param_spec(inputs@[j]) is Some),
        r is Ok <==> ((forall|j: int| 0 <= j < inputs@.len() ==> spec_param_spec(inputs@[j])
            is Some) && spec_return_spec(*output) is Some),
{
    let mut params: Vec<ParameterSpec> = Vec::new();
    let mut i: usize = 0;
    while i < inputs.len()
        invariant
            i <= inputs@.len(),
            params@.len() == i,
            forall|j: int| 0 <= j < i ==> Some(params@[j]) == spec_param_spec(inputs@[j]),
        decreases inputs@.len() - i,
    {
        match param_spec_of(&inputs[i]) {
            Some(p) => params.push(p),
            None => {
                return Err(SignatureError::Parameter(i + 1));
            },
        }
        i = i + 1;
    }
    match map_output(output) {
        Some(ret) => Ok(FunctionSpec { params, ret }),
        None => Err(SignatureError::Return),
    }
}

} // verus!
