use loony::{
    BoxedRouteNewService, BoxedRouteService, Extract, RouteNewService, RouteServiceWrapper,
    Service, ServiceFactory,
};
use std::cell::Cell;

struct Reverse;

impl Service<String, String> for Reverse {
    fn call(&self, req: String) -> Result<String, ()> {
        if req.is_empty() {
            Err(())
        } else {
            Ok(req.chars().rev().collect())
        }
    }
}

/// Answers with the number of calls it has seen. A clone starts anew.
struct Tally {
    seen: Cell<u32>,
}

impl Clone for Tally {
    fn clone(&self) -> Self {
        Tally { seen: Cell::new(0) }
    }
}

impl Service<(String, String), String> for Tally {
    fn call(&self, _: (String, String)) -> Result<String, ()> {
        self.seen.set(self.seen.get() + 1);
        Ok(self.seen.get().to_string())
    }
}

struct Failing;

impl ServiceFactory<String, String, Reverse> for Failing {
    fn new_service(&self) -> Result<Reverse, ()> {
        Err(())
    }
}

struct Reversing;

impl ServiceFactory<String, String, Reverse> for Reversing {
    fn new_service(&self) -> Result<Reverse, ()> {
        Ok(Reverse)
    }
}

#[test]
fn erased_service_answers_as_the_typed_one() {
    let typed = Reverse;
    let wrapper = RouteServiceWrapper::new(Reverse);
    let erased = BoxedRouteService::new(Reverse);
    for req in ["/home", "abc", "", "\u{e9}t\u{e9}"] {
        let expected = typed.call(req.to_string());
        assert_eq!(wrapper.call(req.to_string()), expected);
        assert_eq!(erased.call(req.to_string()), expected);
    }
    assert_eq!(erased.call("/home".to_string()), Ok("emoh/".to_string()));
    assert_eq!(erased.call(String::new()), Err(()));
}

#[test]
fn erasing_factory_boxes_what_the_typed_factory_builds() {
    let factory = RouteNewService::new(Reversing);
    let service = factory.new_service().unwrap();
    assert_eq!(service.call("abc".to_string()), Ok("cba".to_string()));
    let erased = BoxedRouteNewService::new(factory);
    let service = erased.new_service().unwrap();
    assert_eq!(service.call("xyz".to_string()), Ok("zyx".to_string()));
}

#[test]
fn erasing_factory_fails_when_the_typed_factory_fails() {
    let factory = RouteNewService::new(Failing);
    assert!(factory.new_service().is_err());
    let erased = BoxedRouteNewService::new(factory);
    assert!(erased.new_service().is_err());
}

#[test]
fn two_constructions_do_not_share_state() {
    let typed: Extract<String, Tally> = Extract::new(Tally { seen: Cell::new(0) });
    let factory = RouteNewService::new(typed);
    let first = factory.new_service().unwrap();
    let second = factory.new_service().unwrap();
    assert_eq!(first.call("a".to_string()), Ok("1".to_string()));
    assert_eq!(first.call("b".to_string()), Ok("2".to_string()));
    assert_eq!(first.call("c".to_string()), Ok("3".to_string()));
    assert_eq!(second.call("a".to_string()), Ok("1".to_string()));
    drop(first);
    assert_eq!(second.call("b".to_string()), Ok("2".to_string()));
    let third = factory.new_service().unwrap();
    assert_eq!(third.call("a".to_string()), Ok("1".to_string()));
}
