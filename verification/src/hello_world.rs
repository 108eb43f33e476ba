use vstd::prelude::*;

verus! {

/// A greeting-producing capability: one operation, no inputs, no failure
/// mode. `spec_say` names the text a given strategy produces, and `say`
/// must return exactly that text, so callers can be verified against any
/// strategy without depending on a concrete one. An implementation that
/// does not override `spec_say` leaves the produced text unspecified.
pub trait SayHelloWorld {
    open spec fn spec_say(&self) -> Seq<char> {
        arbitrary()
    }

    fn say(&self) -> (greeting: String)
        ensures
            greeting@ == self.spec_say(),
    ;
}

/// The fixed-locale strategy: it always greets in French.
pub struct FrenchSayHelloWorld;

impl SayHelloWorld for FrenchSayHelloWorld {
    open spec fn spec_say(&self) -> Seq<char> {
        "Bonjour le monde!"@
    }

    fn say(&self) -> (greeting: String)
        ensures
            greeting@ == "Bonjour le monde!"@,
    {
        "Bonjour le monde!".to_owned()
    }
}

/// Holds a borrowed greeting strategy and forwards calls to it. The
/// service carries no behaviour of its own: it exists so that callers do
/// not depend on the concrete strategy.
pub struct HelloWorldService<'a, S: SayHelloWorld> {
    pub say_hello_world: &'a S,
}

impl<'a, S: SayHelloWorld> HelloWorldService<'a, S> {
    pub fn new(say_hello_world: &'a S) -> (service: Self)
        ensures
            service.say_hello_world == say_hello_world,
    {
        HelloWorldService { say_hello_world }
    }

    /// Pure delegation: the service returns exactly the text its strategy
    /// produces.
    pub fn say_hello_world(&self) -> (greeting: String)
        ensures
            greeting@ == self.say_hello_world.spec_say(),
    {
        self.say_hello_world.say()
    }
}

} // verus!
