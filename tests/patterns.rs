use oxidized_patterns::patterns::abstract_factory::{Chair, FurnitureFactory, ModernFactory, Sofa, VictorianFactory};
use oxidized_patterns::patterns::adapter::{Adaptee, Adapter, Target};
use oxidized_patterns::patterns::builder::Builder;
use oxidized_patterns::patterns::command::{ConcreteCommand, Invoker, Receiver};
use oxidized_patterns::patterns::interpreter::{Expression, Minus, Number, Plus};
use oxidized_patterns::patterns::newtype::UserId;
use oxidized_patterns::patterns::strategy::{AddStrategy, ContextDyn, ContextGeneric, MultiplyStrategy};
use oxidized_patterns::patterns::visitor::{ConcreteVisitor, Element, ElementA, ElementB};

#[test]
fn test_static_factory() {
    let factory = VictorianFactory;
    let chair = <VictorianFactory as FurnitureFactory>::create_chair(&factory);
    let sofa = <VictorianFactory as FurnitureFactory>::create_sofa(&factory);
    assert_eq!(chair.assemble(), "Assembling Victorian chair");
    assert_eq!(sofa.assemble(), "Assembling Victorian sofa");
}

#[test]
fn modern_factory_makes_modern_furniture() {
    let factory = ModernFactory;
    assert_eq!(factory.create_chair().assemble(), "Assembling modern chair");
    assert_eq!(factory.create_sofa().assemble(), "Assembling modern sofa");
}

#[test]
fn test_adaptee_specific() {
    let a = Adaptee::new("xyz");
    assert_eq!(a.specific_request(), "xyz");
}

#[test]
fn test_adapter_request() {
    let a = Adaptee::new("abc");
    let adapter = Adapter::new(a);
    assert_eq!(adapter.request(), "Adapter: [abc]");
}

#[test]
fn test_demo_through_target() {
    let adaptee = Adaptee::new("123");
    let target: Box<dyn Target> = Box::new(Adapter::new(adaptee));
    assert_eq!(target.request(), "Adapter: [123]");
}

#[test]
fn adapter_frames_empty_data() {
    let adapter = Adapter::new(Adaptee::new(""));
    assert_eq!(adapter.request(), "Adapter: []");
}

#[test]
fn build_product_success() {
    let p = Builder::new().name("Widget").quantity(10).build();
    assert_eq!(p.name, "Widget");
    assert_eq!(p.quantity, 10);
}

#[test]
fn build_in_either_order() {
    let p = Builder::new().quantity(3).name("Bolt").build();
    assert_eq!(p.name, "Bolt");
    assert_eq!(p.quantity, 3);
}

#[test]
fn test_command_history() {
    let receiver = Receiver::new();
    let cmd = ConcreteCommand::new(receiver.clone(), "Hello");
    let invoker = Invoker::new(Box::new(cmd));
    invoker.invoke();
    assert_eq!(receiver.get_log(), vec!["Hello".to_string()]);
}

#[test]
fn commands_share_one_log() {
    let receiver = Receiver::new();
    let first = Invoker::new(Box::new(ConcreteCommand::new(receiver.clone(), "Command 1")));
    let second = Invoker::new(Box::new(ConcreteCommand::new(receiver.clone(), "Command 2")));
    first.invoke();
    second.invoke();
    first.invoke();
    assert_eq!(
        receiver.get_log(),
        vec!["Command 1".to_string(), "Command 2".to_string(), "Command 1".to_string()]
    );
}

#[test]
fn test_number() {
    let n = Number::new(5);
    assert_eq!(n.interpret(), 5);
}

#[test]
fn test_plus() {
    let left = Box::new(Number::new(2));
    let right = Box::new(Number::new(3));
    let plus = Plus::new(left, right);
    assert_eq!(plus.interpret(), 5);
}

#[test]
fn test_minus() {
    let left = Box::new(Number::new(5));
    let right = Box::new(Number::new(3));
    let minus = Minus::new(left, right);
    assert_eq!(minus.interpret(), 2);
}

#[test]
fn test_complex() {
    let expr = Plus::new(
        Box::new(Minus::new(Box::new(Number::new(10)), Box::new(Number::new(4)))),
        Box::new(Number::new(3)),
    );
    assert_eq!(expr.interpret(), 9);
}

#[test]
fn test_newtype_new_and_value() {
    let uid = UserId::new(42);
    assert_eq!(uid.value(), 42);
}

#[test]
fn test_from_into() {
    let uid: UserId = 99u64.into();
    let id: u64 = uid.into();
    assert_eq!(id, 99);
}

#[test]
fn test_static_strategy() {
    let ctx = ContextGeneric::new(AddStrategy { amount: 2 });
    assert_eq!(ctx.execute(3), 5);
}

#[test]
fn test_dynamic_strategy() {
    let mut ctx = ContextDyn::new(Box::new(MultiplyStrategy { factor: 4 }));
    assert_eq!(ctx.execute(3), 12);
    ctx.set_strategy(Box::new(AddStrategy { amount: 1 }));
    assert_eq!(ctx.execute(3), 4);
}

#[test]
fn test_closure_strategy() {
    let ctx = ContextDyn::new(Box::new(|v| v * v));
    assert_eq!(ctx.execute(4), 16);
}

#[test]
fn test_visitor_accumulates() {
    let elements: Vec<Box<dyn Element>> =
        vec![Box::new(ElementA { value: 1 }), Box::new(ElementB { text: String::from("x") })];
    let mut visitor = ConcreteVisitor::new();
    for element in &elements {
        element.accept(&mut visitor);
    }
    assert_eq!(visitor.sum, 1);
    assert_eq!(visitor.texts, vec![String::from("x")]);
}

#[test]
fn visitor_sums_in_order() {
    let elements: Vec<Box<dyn Element>> = vec![
        Box::new(ElementA { value: 2 }),
        Box::new(ElementB { text: String::from("foo") }),
        Box::new(ElementA { value: 5 }),
        Box::new(ElementB { text: String::from("bar") }),
    ];
    let mut visitor = ConcreteVisitor::new();
    for element in &elements {
        element.accept(&mut visitor);
    }
    assert_eq!(visitor.sum, 7);
    assert_eq!(visitor.texts, vec![String::from("foo"), String::from("bar")]);
}
