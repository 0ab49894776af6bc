use faas_rust::signature::{derive_function_spec, extract_type_from_option,
    extract_type_from_vec, extract_types_from_result, is_event, is_option_event, is_vec_event,
    map_output, FnArg, FunctionSpec, GenericArg, ParameterSpec, ReturnSpec, ReturnType, Segment,
    SignatureError, Ty, TyPath};

fn plain(ident: &[u8]) -> Ty {
    Ty::Path(TyPath {
        leading_colon: false,
        segments: vec![Segment { ident: ident.to_vec(), args: vec![] }],
    })
}

fn generic(ident: &[u8], args: Vec<GenericArg>) -> Ty {
    Ty::Path(TyPath {
        leading_colon: false,
        segments: vec![Segment { ident: ident.to_vec(), args }],
    })
}

fn event_ty() -> Ty {
    plain(b"Event")
}

fn option_event_ty() -> Ty {
    generic(b"Option", vec![GenericArg::TypeArg(event_ty())])
}

fn vec_event_ty() -> Ty {
    generic(b"Vec", vec![GenericArg::TypeArg(event_ty())])
}

fn result_of(ok: Ty) -> ReturnType {
    ReturnType::Type(generic(
        b"Result",
        vec![GenericArg::TypeArg(ok), GenericArg::TypeArg(plain(b"MyError"))],
    ))
}

#[test]
fn event_path_is_event() {
    assert!(is_event(&event_ty()));
    assert!(!is_event(&plain(b"String")));
    assert!(!is_event(&Ty::Other));
}

#[test]
fn qualified_event_path_is_event() {
    let qualified = Ty::Path(TyPath {
        leading_colon: false,
        segments: vec![
            Segment { ident: b"cloudevent".to_vec(), args: vec![] },
            Segment { ident: b"Event".to_vec(), args: vec![] },
        ],
    });
    assert!(is_event(&qualified));
}

#[test]
fn option_event_recognized() {
    assert!(is_option_event(&option_event_ty()));
    assert!(!is_option_event(&event_ty()));
    assert!(extract_type_from_option(&option_event_ty()).is_some());
    assert!(extract_type_from_option(&plain(b"Option")).is_none());
}

#[test]
fn vec_event_recognized() {
    assert!(is_vec_event(&vec_event_ty()));
    assert!(!is_vec_event(&option_event_ty()));
    assert!(extract_type_from_vec(&vec_event_ty()).is_some());
}

#[test]
fn leading_colon_disqualifies_bare_generics() {
    let rooted = Ty::Path(TyPath {
        leading_colon: true,
        segments: vec![Segment {
            ident: b"Option".to_vec(),
            args: vec![GenericArg::TypeArg(event_ty())],
        }],
    });
    assert!(!is_option_event(&rooted));
}

#[test]
fn result_arms_are_extracted() {
    let rt = generic(
        b"Result",
        vec![GenericArg::TypeArg(event_ty()), GenericArg::TypeArg(plain(b"MyError"))],
    );
    let (ok_arm, err_arm) = extract_types_from_result(&rt).unwrap();
    assert!(is_event(ok_arm));
    assert!(!is_event(err_arm));
}

#[test]
fn result_skips_non_type_arguments() {
    let rt = generic(
        b"Result",
        vec![
            GenericArg::OtherArg,
            GenericArg::TypeArg(event_ty()),
            GenericArg::TypeArg(plain(b"MyError")),
        ],
    );
    let (ok_arm, _) = extract_types_from_result(&rt).unwrap();
    assert!(is_event(ok_arm));
}

#[test]
fn result_with_one_arm_is_rejected() {
    let rt = generic(b"Result", vec![GenericArg::TypeArg(event_ty())]);
    assert!(extract_types_from_result(&rt).is_none());
}

#[test]
fn return_shapes_map_to_specs() {
    assert_eq!(map_output(&result_of(event_ty())), Some(ReturnSpec::SingleEvent));
    assert_eq!(map_output(&result_of(option_event_ty())), Some(ReturnSpec::OptionalEvent));
    assert_eq!(map_output(&result_of(vec_event_ty())), Some(ReturnSpec::EventSequence));
    assert_eq!(map_output(&result_of(plain(b"String"))), None);
    assert_eq!(map_output(&ReturnType::Type(event_ty())), None);
    assert_eq!(map_output(&ReturnType::Default), None);
}

#[test]
fn accepted_signature_yields_dispatch_table() {
    let inputs = vec![FnArg::Typed(event_ty()), FnArg::Typed(option_event_ty())];
    let output = result_of(vec_event_ty());
    let FunctionSpec { params, ret } = derive_function_spec(&inputs, &output).unwrap();
    assert_eq!(params, vec![ParameterSpec::RequiredEvent, ParameterSpec::OptionalEvent]);
    assert_eq!(ret, ReturnSpec::EventSequence);
}

#[test]
fn bad_parameter_names_its_position() {
    let inputs = vec![FnArg::Typed(event_ty()), FnArg::Typed(plain(b"String"))];
    let output = result_of(event_ty());
    assert_eq!(
        derive_function_spec(&inputs, &output).unwrap_err(),
        SignatureError::Parameter(2)
    );
}

#[test]
fn receiver_parameter_is_rejected() {
    let inputs = vec![FnArg::Receiver];
    let output = result_of(event_ty());
    assert_eq!(
        derive_function_spec(&inputs, &output).unwrap_err(),
        SignatureError::Parameter(1)
    );
}

#[test]
fn bad_return_shape_is_rejected() {
    let inputs = vec![FnArg::Typed(event_ty())];
    let output = result_of(plain(b"String"));
    assert_eq!(derive_function_spec(&inputs, &output).unwrap_err(), SignatureError::Return);
}

#[test]
fn zero_parameter_signature_is_accepted() {
    let inputs: Vec<FnArg> = vec![];
    let output = result_of(option_event_ty());
    let spec = derive_function_spec(&inputs, &output).unwrap();
    assert!(spec.params.is_empty());
    assert_eq!(spec.ret, ReturnSpec::OptionalEvent);
}
