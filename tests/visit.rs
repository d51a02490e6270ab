use enum_visitor::{derive_visit_enum, Declaration, FieldShape, ItemData, Variant};
use std::f64::consts::PI;

fn one_field(name: &str) -> Variant {
    Variant { name: name.to_string(), fields: FieldShape::Unnamed(1) }
}

fn enum_decl(name: &str, variants: &[&str]) -> Declaration {
    Declaration {
        name: name.to_string(),
        data: ItemData::Enum(variants.iter().map(|v| one_field(v)).collect()),
    }
}

/// The generated text with the caller's binder and callback put in place of
/// the construct's parameters.
fn instantiate(text: &str, binder: &str, body: &str, block: &str) -> String {
    text.replace("$v", binder).replace("$($tt)*", block).replace("$body", body)
}

enum Shape {
    Circle(Circle),
    Rectangle(Rectangle),
    Triangle(Triangle),
}

struct Circle {
    radius: f64,
}

impl Circle {
    fn area(&self) -> f64 {
        PI * self.radius * self.radius
    }
}

struct Rectangle {
    width: f64,
    height: f64,
}

impl Rectangle {
    fn area(&self) -> f64 {
        self.width * self.height
    }
}

struct Triangle {
    base: f64,
    height: f64,
}

impl Triangle {
    fn area(&self) -> f64 {
        0.5 * self.base * self.height
    }
}

impl Shape {
    // What `visit!(self, |s| s.area())` expands to.
    fn area(&self) -> f64 {
        match self {
            Shape::Circle(s) => { s.area() }, Shape::Rectangle(s) => { s.area() }, Shape::Triangle(s) => { s.area() }
        }
    }
}

enum V {
    A(i32),
    B(i32),
}

impl V {
    // What `visit!(self, |ref mut x| { *x += 1; })` expands to.
    fn inc(&mut self) {
        match self {
            V::A(ref mut x) => { *x += 1; }, V::B(ref mut x) => { *x += 1; }
        }
    }

    // What `visit!(self, |x| *x)` expands to.
    fn get(&self) -> i32 {
        match self {
            V::A(x) => { *x }, V::B(x) => { *x }
        }
    }
}

#[test]
fn visit_expr_form() {
    let text = derive_visit_enum(&enum_decl("Shape", &["Circle", "Rectangle"])).unwrap();
    assert!(text.contains("macro_rules! visit_shape {"));
    let expanded = instantiate(&text, "s", "s.area()", "");
    assert!(expanded.contains("Shape::Circle(s) => { s.area() }, Shape::Rectangle(s) => { s.area() }\n"));

    let c = Shape::Circle(Circle { radius: 2.0 });
    let r = Shape::Rectangle(Rectangle { width: 3.0, height: 4.0 });
    assert!((c.area() - (PI * 4.0)).abs() < 1e-9);
    assert_eq!(r.area(), 12.0);
}

#[test]
fn visit_block_form_and_mut_binder() {
    let text = derive_visit_enum(&enum_decl("V", &["A", "B"])).unwrap();
    let block = instantiate(&text, "ref mut x", "", "*x += 1;");
    assert!(block.contains("V::A(ref mut x) => { *x += 1; }, V::B(ref mut x) => { *x += 1; }\n"));
    let expr = instantiate(&text, "x", "*x", "");
    assert!(expr.contains("V::A(x) => { *x }, V::B(x) => { *x }\n"));

    let mut v = V::A(1);
    v.inc();
    assert_eq!(v.get(), 2);

    let mut w = V::B(10);
    w.inc();
    assert_eq!(w.get(), 11);
}

#[test]
fn shapes_three_variants() {
    let text = derive_visit_enum(&enum_decl("Shape", &["Circle", "Rectangle", "Triangle"])).unwrap();
    let expanded = instantiate(&text, "s", "s.area()", "");
    assert!(expanded.contains(
        "Shape::Circle(s) => { s.area() }, Shape::Rectangle(s) => { s.area() }, Shape::Triangle(s) => { s.area() }\n"
    ));

    let c = Shape::Circle(Circle { radius: 2.0 });
    let r = Shape::Rectangle(Rectangle { width: 3.0, height: 4.0 });
    let t = Shape::Triangle(Triangle { base: 10.0, height: 2.0 });
    assert!((c.area() - (PI * 4.0)).abs() < 1e-9);
    assert_eq!(r.area(), 12.0);
    assert_eq!(t.area(), 10.0);
}

#[test]
fn both_shapes_select_the_same_variant() {
    let text = derive_visit_enum(&enum_decl("V", &["A", "B"])).unwrap();
    let expr_at = text.find("V::A($v) => { $body }, V::B($v) => { $body }").unwrap();
    let block_at = text.find("V::A($v) => { $($tt)* }, V::B($v) => { $($tt)* }").unwrap();
    assert!(expr_at < block_at);
}
