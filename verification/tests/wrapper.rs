use loony::{Factory, Responder, Service, Wrapper};
use vstd::view::View;

struct Greeting {
    name: String,
}

impl View for Greeting {
    type V = String;

    fn view(&self) -> String {
        self.name.clone()
    }
}

impl Responder for Greeting {
    fn respond(self) -> String {
        format!("Hello {}!", self.name)
    }
}

#[derive(Clone)]
struct Greeter;

impl Factory<String, Greeting> for Greeter {
    fn factory_call(&self, name: String) -> Greeting {
        Greeting { name }
    }
}

#[derive(Clone)]
struct Fixed;

impl Factory<(), String> for Fixed {
    fn factory_call(&self, _: ()) -> String {
        "Hello World!".to_string()
    }
}

#[test]
fn wrapper_renders_what_the_handler_returns() {
    let wrapper = Wrapper::new(Greeter);
    assert_eq!(
        wrapper.call(("World".to_string(), "/home".to_string())),
        Ok("Hello World!".to_string())
    );
}

#[test]
fn wrapper_does_not_look_at_the_raw_request() {
    let wrapper = Wrapper::new(Greeter);
    let one = wrapper.call(("a".to_string(), "/x".to_string()));
    let other = wrapper.call(("a".to_string(), "/y".to_string()));
    assert_eq!(one, Ok("Hello a!".to_string()));
    assert_eq!(one, other);
}

#[test]
fn wrapper_never_fails() {
    let wrapper = Wrapper::new(Fixed);
    assert_eq!(wrapper.call(((), String::new())), Ok("Hello World!".to_string()));
}

#[test]
fn cloned_wrapper_answers_as_the_first() {
    let wrapper = Wrapper::new(Greeter);
    let copy = wrapper.clone();
    drop(wrapper);
    assert_eq!(copy.call(("b".to_string(), String::new())), Ok("Hello b!".to_string()));
}

#[test]
fn string_responds_with_itself() {
    assert_eq!("Hello World!".to_string().respond(), "Hello World!");
    assert_eq!(String::new().respond(), "");
}
