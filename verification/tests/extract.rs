use loony::{short_circuit, Extract, ExtractService, FromRequest, Service, ServiceFactory};
use std::cell::Cell;
use std::rc::Rc;
use vstd::view::View;

struct Digits(u32);

impl View for Digits {
    type V = u32;

    fn view(&self) -> u32 {
        self.0
    }
}

impl FromRequest for Digits {
    fn from_request(req: &String) -> Result<Self, ()> {
        req.parse::<u32>().map(Digits).map_err(|_| ())
    }
}

#[derive(Clone)]
struct Counting {
    calls: Rc<Cell<u32>>,
}

impl Service<(Digits, String), String> for Counting {
    fn call(&self, req: (Digits, String)) -> Result<String, ()> {
        self.calls.set(self.calls.get() + 1);
        let (Digits(n), raw) = req;
        Ok(format!("{}+1={} ({})", n, n + 1, raw))
    }
}

#[derive(Clone)]
struct Refusing;

impl Service<(String, String), String> for Refusing {
    fn call(&self, _: (String, String)) -> Result<String, ()> {
        Err(())
    }
}

#[derive(Clone)]
struct Pairing;

impl Service<(String, String), String> for Pairing {
    fn call(&self, req: (String, String)) -> Result<String, ()> {
        Ok(format!("{}|{}", req.0, req.1))
    }
}

fn stage(calls: &Rc<Cell<u32>>) -> ExtractService<Digits, Counting> {
    let factory: Extract<Digits, Counting> = Extract::new(Counting { calls: calls.clone() });
    factory.new_service().unwrap()
}

#[test]
fn failed_extraction_never_calls_the_inner_service() {
    let calls = Rc::new(Cell::new(0));
    let stage = stage(&calls);
    assert_eq!(stage.call("seven".to_string()), Err(()));
    assert_eq!(stage.call("".to_string()), Err(()));
    assert_eq!(stage.call("-1".to_string()), Err(()));
    assert_eq!(calls.get(), 0);
}

#[test]
fn extracted_value_goes_to_the_inner_service_with_the_request() {
    let calls = Rc::new(Cell::new(0));
    let stage = stage(&calls);
    assert_eq!(stage.call("7".to_string()), Ok("7+1=8 (7)".to_string()));
    assert_eq!(calls.get(), 1);
    assert_eq!(stage.call("007".to_string()), Ok("7+1=8 (007)".to_string()));
    assert_eq!(calls.get(), 2);
}

#[test]
fn forward_stops_at_a_failed_extraction() {
    let calls = Rc::new(Cell::new(0));
    let stage = stage(&calls);
    assert_eq!(stage.forward(Err(()), "41".to_string()), Err(()));
    assert_eq!(calls.get(), 0);
    assert_eq!(stage.forward(Ok(Digits(41)), "x".to_string()), Ok("41+1=42 (x)".to_string()));
    assert_eq!(calls.get(), 1);
}

#[test]
fn inner_failure_is_returned_unchanged() {
    let factory: Extract<String, Refusing> = Extract::new(Refusing);
    let stage = factory.new_service().unwrap();
    assert_eq!(stage.call("/home".to_string()), Err(()));
}

#[test]
fn string_is_extracted_as_the_whole_request() {
    assert_eq!(String::from_request(&"/home?x=1".to_string()), Ok("/home?x=1".to_string()));
    assert_eq!(String::from_request(&String::new()), Ok(String::new()));
    let factory: Extract<String, Pairing> = Extract::new(Pairing);
    let stage = factory.new_service().unwrap();
    assert_eq!(stage.call("/a".to_string()), Ok("/a|/a".to_string()));
}

#[test]
fn extract_always_constructs() {
    let calls = Rc::new(Cell::new(0));
    let factory: Extract<Digits, Counting> = Extract::new(Counting { calls: calls.clone() });
    assert!(factory.new_service().is_ok());
    assert!(factory.new_service().is_ok());
    assert_eq!(calls.get(), 0);
}

#[test]
fn short_circuit_calls_the_inner_only_on_an_extracted_value() {
    let mut calls = 0;
    let res = short_circuit::<u32, _>(Err(()), "/a".to_string(), |_| {
        calls += 1;
        Ok("reached".to_string())
    });
    assert_eq!(res, Err(()));
    assert_eq!(calls, 0);
    let res = short_circuit(Ok(5u32), "/a".to_string(), |(n, raw)| {
        calls += 1;
        Ok(format!("{}{}", raw, n))
    });
    assert_eq!(res, Ok("/a5".to_string()));
    assert_eq!(calls, 1);
    let res = short_circuit(Ok(5u32), "/a".to_string(), |_| Err(()));
    assert_eq!(res, Err(()));
}
