use ton_client::debot::abi::{find_function, find_inputs, load_abi};
use ton_client::debot::dengine::query_inputs;
use ton_client::debot::dialogue::{Dialogue, Reply, Request, Stop};
use ton_client::json::Json;

const ABI: &str = "{\"ABI version\":2,\"functions\":[\
    {\"name\":\"a\",\"inputs\":[{\"name\":\"x\",\"type\":\"bytes\"}],\"outputs\":[]},\
    {\"name\":\"b\",\"inputs\":[],\"outputs\":[]},\
    {\"name\":\"a\",\"inputs\":[],\"outputs\":[]}]}";

fn json(text: &str) -> Json {
    Json::parse(text).unwrap()
}

#[test]
fn an_interface_is_what_its_type_writes() {
    assert_eq!(load_abi(Ok(ABI.to_owned())).unwrap().json, ABI);
}

#[test]
fn a_text_that_does_not_parse_is_refused_in_the_words_of_the_parser() {
    let e = load_abi(Err("missing field `functions` at line 1 column 2".to_owned()));
    assert_eq!(
        e.unwrap_err(),
        "failed to parse abi: missing field `functions` at line 1 column 2"
    );
}

#[test]
fn the_first_function_with_a_name_is_found() {
    let abi = json(ABI);
    assert_eq!(find_inputs(&abi, "a").unwrap().unwrap().len(), 1);
    assert_eq!(find_inputs(&abi, "b").unwrap().unwrap().len(), 0);
    assert!(find_inputs(&abi, "c").unwrap().is_none());
    let functions = vec![json("{\"name\":\"f\",\"n\":1}"), json("{\"name\":\"f\",\"n\":2}")];
    assert_eq!(find_function(&functions, "f").unwrap().unwrap().get_i64("n"), Some(1));
}

#[test]
fn a_function_behind_one_without_a_name_is_not_found() {
    let functions = vec![json("{\"name\":\"f\"}"), json("{}"), json("{\"name\":\"g\"}")];
    assert!(find_function(&functions, "f").unwrap().is_some());
    assert!(find_function(&functions, "g").is_err());
    assert!(find_function(&Vec::new(), "g").unwrap().is_none());
}

#[test]
fn an_interface_without_lists_is_malformed() {
    assert!(find_inputs(&json("{}"), "f").is_err());
    assert!(find_inputs(&json("[]"), "f").is_err());
    assert!(find_inputs(&json("{\"functions\":{}}"), "f").is_err());
    assert!(find_inputs(&json("{\"functions\":[{\"name\":\"f\"}]}"), "f").is_err());
}

#[test]
fn arguments_are_asked_for_by_the_interface() {
    let abi = json(ABI);
    let mut talk = Dialogue::new();
    assert!(matches!(query_inputs(&mut talk, &abi, "a"), Err(Stop::Pending)));
    assert!(matches!(talk.take_request(), Some(Request::Input(_))));
    talk.answer(Reply::Text("AZ".to_owned()));
    assert_eq!(query_inputs(&mut talk, &abi, "a").unwrap().text(), "{\"x\":\"415a\"}");

    let mut talk = Dialogue::new();
    assert_eq!(query_inputs(&mut talk, &abi, "b").unwrap().text(), "{}");
    match query_inputs(&mut talk, &abi, "c") {
        Err(Stop::Failed(e)) => assert_eq!(e, "action not found"),
        other => panic!("{:?}", other),
    }
    assert!(matches!(query_inputs(&mut talk, &json("{}"), "a"), Err(Stop::Fault)));
}

#[test]
fn a_parameter_needs_a_name_before_and_a_type_after_it_is_asked_for() {
    let unnamed = json("{\"functions\":[{\"name\":\"f\",\"inputs\":[{\"type\":\"uint8\"}]}]}");
    let mut talk = Dialogue::new();
    assert!(matches!(query_inputs(&mut talk, &unnamed, "f"), Err(Stop::Fault)));
    assert!(talk.take_request().is_none());

    let untyped = json("{\"functions\":[{\"name\":\"f\",\"inputs\":[{\"name\":\"x\"}]}]}");
    let mut talk = Dialogue::new();
    assert!(matches!(query_inputs(&mut talk, &untyped, "f"), Err(Stop::Pending)));
    talk.answer(Reply::Text("1".to_owned()));
    assert!(matches!(query_inputs(&mut talk, &untyped, "f"), Err(Stop::Fault)));
}
