use tritonserver_rs::error::ErrorCode;
use tritonserver_rs::memory::{Buffer, DataType};
use tritonserver_rs::message::{Model, Shape};
use tritonserver_rs::parameter::{Parameter, ParameterContent};
use tritonserver_rs::request::{Correlation, Request, Sequence};

fn two_tensor_model() -> Model {
    Model {
        name: "classifier".to_string(),
        platform: "test".to_string(),
        versions: vec!["1".to_string()],
        inputs: vec![
            Shape {
                name: "IMAGE".to_string(),
                datatype: DataType::Uint8,
                dims: vec![2, 3],
            },
            Shape {
                name: "MASK".to_string(),
                datatype: DataType::Uint16,
                dims: vec![-1, 2],
            },
        ],
        outputs: vec![
            Shape {
                name: "LABEL".to_string(),
                datatype: DataType::Uint32,
                dims: vec![1],
            },
            Shape {
                name: "SCORE".to_string(),
                datatype: DataType::Uint64,
                dims: vec![1],
            },
        ],
    }
}

#[test]
fn duplicate_input_is_refused_and_first_kept() {
    let mut request = Request::new(two_tensor_model());
    let first: Vec<u8> = vec![1, 2, 3, 4, 5, 6];
    request.add_input("IMAGE", Buffer::from::<u8>(&first)).unwrap();

    let second: Vec<u8> = vec![9, 9, 9, 9, 9, 9];
    let err = request
        .add_input("IMAGE", Buffer::from::<u8>(&second))
        .unwrap_err();
    assert_eq!(err.code(), ErrorCode::Alreadyxists);

    // the first input is still attached, unchanged
    let kept = request.remove_input("IMAGE").unwrap();
    assert_eq!(kept.read_samples::<u8>(), first);
}

#[test]
fn unknown_input_name_is_refused() {
    let mut request = Request::new(two_tensor_model());
    let err = request
        .add_input("NO_SUCH_TENSOR", Buffer::from::<u8>(&vec![0; 6]))
        .unwrap_err();
    assert_eq!(err.code(), ErrorCode::NotFound);
}

#[test]
fn wrong_datatype_is_refused() {
    let mut request = Request::new(two_tensor_model());
    let err = request
        .add_input("IMAGE", Buffer::from::<u16>(&vec![0; 6]))
        .unwrap_err();
    assert_eq!(err.code(), ErrorCode::InvalidArg);
}

#[test]
fn undersized_buffer_is_refused() {
    let mut request = Request::new(two_tensor_model());
    // IMAGE is 2 x 3 u8 elements: six bytes at least
    let err = request
        .add_input("IMAGE", Buffer::from::<u8>(&vec![0; 5]))
        .unwrap_err();
    assert_eq!(err.code(), ErrorCode::InvalidArg);
    request.add_input("IMAGE", Buffer::from::<u8>(&vec![0; 6])).unwrap();
}

#[test]
fn open_dimensions_count_as_one() {
    let mut request = Request::new(two_tensor_model());
    // MASK is (-1) x 2 u16 elements: the open dimension counts as one,
    // so four bytes are enough
    request
        .add_input("MASK", Buffer::from::<u16>(&vec![7, 8]))
        .unwrap();
}

#[test]
fn dims_override_changes_validation() {
    let mut request = Request::new(two_tensor_model());
    let buffer = Buffer::from::<u8>(&vec![0; 6]);
    let err = request
        .add_input_with_dims("IMAGE", buffer, &vec![7, 1])
        .unwrap_err();
    assert_eq!(err.code(), ErrorCode::InvalidArg);

    let buffer = Buffer::from::<u8>(&vec![0; 7]);
    request.add_input_with_dims("IMAGE", buffer, &vec![7, 1]).unwrap();
}

#[test]
fn input_with_policy_is_validated_the_same() {
    let mut request = Request::new(two_tensor_model());
    request
        .add_input_with_policy("IMAGE", Buffer::from::<u8>(&vec![0; 6]), "numa0")
        .unwrap();
    let err = request
        .add_input_with_policy_and_dims("MASK", Buffer::from::<u16>(&vec![1]), "numa0", &vec![3])
        .unwrap_err();
    assert_eq!(err.code(), ErrorCode::InvalidArg);
}

#[test]
fn remove_inputs() {
    let mut request = Request::new(two_tensor_model());
    request.add_input("IMAGE", Buffer::from::<u8>(&vec![0; 6])).unwrap();
    request.add_input("MASK", Buffer::from::<u16>(&vec![1, 2])).unwrap();

    let err = request.remove_input("LABEL").unwrap_err();
    assert_eq!(err.code(), ErrorCode::InvalidArg);

    let removed = request.remove_input("MASK").unwrap();
    assert_eq!(removed.read_samples::<u16>(), vec![1, 2]);

    let rest = request.remove_all_inputs();
    assert_eq!(rest.len(), 1);
    assert_eq!(rest[0].0, "IMAGE");
}

#[test]
fn settings_are_recorded() {
    let mut request = Request::new(two_tensor_model());
    assert_eq!(request.get_id(), "");
    request.set_id("my request");
    assert_eq!(request.get_id(), "my request");

    assert_eq!(request.get_flags(), None);
    request.set_flags(Sequence::Start);
    assert_eq!(request.get_flags(), Some(Sequence::Start));
    assert_eq!(Sequence::Start.bits(), 1);
    assert_eq!(Sequence::End.bits(), 2);

    assert_eq!(request.get_priority(), 0);
    request.set_priority(7);
    assert_eq!(request.get_priority(), 7);

    assert_eq!(request.get_timeout(), 0);
    request.set_timeout(250_000);
    assert_eq!(request.get_timeout(), 250_000);
}

#[test]
fn correlation_id_kinds() {
    let mut request = Request::new(two_tensor_model());
    assert_eq!(request.get_correlation_id().unwrap(), 0);
    assert_eq!(request.get_correlation_id_as_string().unwrap(), "");

    request.set_correlation_id(99);
    assert_eq!(request.get_correlation_id().unwrap(), 99);
    let err = request.get_correlation_id_as_string().unwrap_err();
    assert_eq!(err.code(), ErrorCode::InvalidArg);

    request.set_correlation_id_as_str("batch-7");
    assert_eq!(request.get_correlation_id_as_string().unwrap(), "batch-7");
    let err = request.get_correlation_id().unwrap_err();
    assert_eq!(err.code(), ErrorCode::InvalidArg);
    assert!(matches!(request.correlation, Correlation::Text(_)));
}

#[test]
fn byte_parameters_are_refused() {
    let mut request = Request::new(two_tensor_model());
    request
        .set_parameter(Parameter::new("temperature", ParameterContent::Int(3)))
        .unwrap();
    request
        .set_parameter(Parameter::new("greedy", ParameterContent::Bool(true)))
        .unwrap();
    request
        .set_parameter(Parameter::new("mode", ParameterContent::String("fast".to_string())))
        .unwrap();
    let err = request
        .set_parameter(Parameter::new("blob", ParameterContent::Bytes(vec![1, 2])))
        .unwrap_err();
    assert_eq!(err.code(), ErrorCode::Unsupported);
    assert_eq!(request.parameters.len(), 3);
}

#[test]
fn infer_without_inputs_or_allocator_is_refused() {
    // no input attached: refused before anything reaches the engine
    let request = Request::new(two_tensor_model());
    match request.infer_async() {
        Err(err) => assert_eq!(err.code(), ErrorCode::NotFound),
        Ok(_) => panic!("a request without inputs must be refused"),
    }

    // an input but no allocator: refused too
    let mut request = Request::new(two_tensor_model());
    request.add_input("IMAGE", Buffer::from::<u8>(&vec![0; 6])).unwrap();
    match request.infer_async() {
        Err(err) => assert_eq!(err.code(), ErrorCode::NotFound),
        Ok(_) => panic!("a request without an allocator must be refused"),
    }

    // with both, the hand-over succeeds
    let mut request = Request::new(two_tensor_model());
    request.add_input("IMAGE", Buffer::from::<u8>(&vec![0; 6])).unwrap();
    request.add_default_allocator();
    let inflight = request.infer_async().unwrap();
    assert_eq!(inflight.engine.model_name, "classifier");
    assert_eq!(inflight.engine.requested_outputs, vec!["LABEL", "SCORE"]);
    assert_eq!(inflight.engine.inputs.len(), 1);
    assert!(!inflight.bridge.is_alloc_called());
}
