use adaptive_reasoner::handlers::{dispatch, Dispatch};
use adaptive_reasoner::test_utils::helpers::{
    create_test_chat_request, create_test_config_with_model,
};

#[test]
fn a_call_is_served_by_the_route_of_its_model() {
    let config = create_test_config_with_model(
        "test-model".to_string(),
        "http://localhost:8081".to_string(),
        "test-key".to_string(),
        100,
    );
    let mut request = create_test_chat_request("test-model", "Hello");
    assert_eq!(dispatch(&config, &request), Dispatch::Direct(0));
    request.stream = Some(false);
    assert_eq!(dispatch(&config, &request), Dispatch::Direct(0));
    request.stream = Some(true);
    assert_eq!(dispatch(&config, &request), Dispatch::Stream(0));
}

#[test]
fn a_call_for_a_model_without_route_is_turned_down() {
    let config = create_test_config_with_model(
        "test-model".to_string(),
        "http://localhost:8081".to_string(),
        "test-key".to_string(),
        100,
    );
    let mut request = create_test_chat_request("nonexistent-model", "Hello");
    assert_eq!(dispatch(&config, &request), Dispatch::UnknownModel);
    request.stream = Some(true);
    assert_eq!(dispatch(&config, &request), Dispatch::UnknownModel);
}
