use std::collections::HashMap;
use std::fmt::Debug;

use photonix::GetOption;
use photonix::GetRef;
use photonix::Modify;
use photonix::ModifyOption;
use photonix::Optic;
use photonix::ReverseGet;
use photonix::SetOption;
use photonix::Setter;

// The `Optic` members and the `lemma_*` items below are the specification
// side of the library's traits; outside the verifier they are ordinary
// trait items, so these hand-written instances fill them in alongside the
// executable accessors.

#[derive(Debug, PartialEq)]
pub struct Person {
    pub name: String,
    pub age: u8,
}

impl Optic<String> for Person {
    fn focus(self) -> Option<String> {
        Some(self.name)
    }

    fn put(self, v: String) -> Self {
        Person { name: v, age: self.age }
    }

    fn lemma_put_focus(self, _v: String) {}

    fn lemma_put_absent(self, _v: String) {}

    fn lemma_put_put(self, _v1: String, _v2: String) {}

    fn lemma_focus_put(self) {}
}

impl GetRef<String> for Person {
    fn lemma_get_ref_total(self) {}

    fn get_ref(&self) -> &String {
        &self.name
    }
}

impl Setter<String> for Person {
    fn set(self, new_value: String) -> Self {
        Person { name: new_value, age: self.age }
    }
}

fn john() -> Person {
    Person { name: String::from("john"), age: 42 }
}

#[allow(dead_code)]
#[derive(Debug, PartialEq)]
enum Json {
    JNull,
    JStr(String),
    JNum(f64),
    JObj(HashMap<String, Json>),
}

impl Optic<f64> for Json {
    fn focus(self) -> Option<f64> {
        match self {
            Json::JNum(n) => Some(n),
            _ => None,
        }
    }

    fn put(self, v: f64) -> Self {
        match self {
            Json::JNum(_) => Json::JNum(v),
            other => other,
        }
    }

    fn lemma_put_focus(self, _v: f64) {}

    fn lemma_put_absent(self, _v: f64) {}

    fn lemma_put_put(self, _v1: f64, _v2: f64) {}

    fn lemma_focus_put(self) {}
}

impl GetOption<f64> for Json {
    fn get_option(self) -> Option<f64> {
        match self {
            Json::JNum(n) => Some(n),
            _ => None,
        }
    }
}

impl Setter<f64> for Json {
    fn set(self, new_value: f64) -> Self {
        match self {
            Json::JNum(_) => Json::JNum(new_value),
            other => other,
        }
    }
}

impl Modify<f64> for Json {
    fn modify<F: FnOnce(f64) -> f64>(self, f: F) -> Self {
        match self {
            Json::JNum(n) => Json::JNum(f(n)),
            other => other,
        }
    }
}

impl SetOption<f64> for Json {
    fn set_option(self, new_value: f64) -> Option<Self> {
        match self {
            Json::JNum(_) => Some(Json::JNum(new_value)),
            _ => None,
        }
    }
}

impl ModifyOption<f64> for Json {
    fn modify_option<F: FnOnce(f64) -> f64>(self, f: F) -> Option<Self> {
        match self {
            Json::JNum(n) => Some(Json::JNum(f(n))),
            _ => None,
        }
    }
}

impl Optic<String> for Json {
    fn focus(self) -> Option<String> {
        match self {
            Json::JStr(s) => Some(s),
            _ => None,
        }
    }

    fn put(self, v: String) -> Self {
        match self {
            Json::JStr(_) => Json::JStr(v),
            other => other,
        }
    }

    fn lemma_put_focus(self, _v: String) {}

    fn lemma_put_absent(self, _v: String) {}

    fn lemma_put_put(self, _v1: String, _v2: String) {}

    fn lemma_focus_put(self) {}
}

impl GetOption<String> for Json {
    fn get_option(self) -> Option<String> {
        match self {
            Json::JStr(s) => Some(s),
            _ => None,
        }
    }
}

impl ReverseGet<String> for Json {
    fn wrap(value: String) -> Self {
        Json::JStr(value)
    }

    fn lemma_wrap_focus(_value: String) {}

    fn lemma_focus_wrap(self) {}

    fn reverse_get(value: String) -> Self {
        Json::JStr(value)
    }
}

fn h() -> String {
    String::from("hello")
}

fn div_by_five_point_two(n: f64) -> f64 {
    n / 5.2
}

#[test]
fn get_option() {
    let json_pi = || Json::JNum(3.14);
    let v1: Option<f64> = json_pi().get_option();
    let v2: Option<String> = json_pi().get_option();

    assert_eq!(Some(3.14), v1);

    assert_eq!(None, v2);
}

#[test]
fn setters() {
    assert_eq!(Json::JNum(0.1), Json::JNum(0.0).set(0.1));

    assert_eq!(Json::JNull, Json::JNull.set(0.1));
}

#[test]
fn set_option() {
    assert_eq!(Some(Json::JNum(0.1)), Json::JNum(0.0).set_option(0.1));

    assert_eq!(None, Json::JNull.set_option(0.1));
}

#[test]
fn modifiers() {
    assert_eq!(Json::JNum(10.0), Json::JNum(52.0).modify(div_by_five_point_two));

    assert_eq!(Json::JNull, Json::JNull.modify(div_by_five_point_two));
}

#[test]
fn modify_option() {
    assert_eq!(Some(Json::JNum(10.0)), Json::JNum(52.0).modify_option(div_by_five_point_two));

    assert_eq!(None, Json::JNull.modify_option(div_by_five_point_two));
}

#[test]
fn reverse_get() {
    let hello = Json::reverse_get(h());

    assert_eq!(Json::JStr(h()), hello);
}

// If you set a value, and immediately view the value, you get the value that was set.
fn lens_law1<Lens, Value>(lens: impl Fn() -> Lens, value: Value)
where
    Value: Clone + Debug + PartialEq,
    Lens: GetRef<Value> + Setter<Value>,
{
    assert_eq!(value.clone(), *lens().set(value).get_ref())
}

// If you set a value to `a` and then immediately set the value to `b`,
// it's the same as if you'd just set the value to `b`.
fn lens_law2<Lens, Value>(lens: impl Fn() -> Lens, value1: Value, value2: Value)
where
    Value: Clone + Debug + PartialEq,
    Lens: Debug + GetRef<Value> + Setter<Value> + PartialEq,
{
    assert_eq!(lens().set(value2.clone()), lens().set(value1).set(value2));
}

// If you get_ref the value, and then immediately set that value back, the value is unchanged.
fn lens_law3<Lens, Value>(lens: fn() -> Lens)
where
    Lens: GetRef<Value> + Setter<Value>,
    Value: Clone + Debug + PartialEq,
{
    let v: Value = lens().get_ref().to_owned();
    assert_eq!(v.clone(), *lens().set(v).get_ref());
}

#[test]
fn lens_laws() {
    lens_law1(john, String::from("joe"));
    lens_law2(john, String::from("joe"), String::from("mark"));
    lens_law3::<Person, String>(john);
}

pub fn round_trip<Lens, Value>(lens: Lens) -> bool
where
    Lens: ReverseGet<Value> + GetOption<Value> + Copy + PartialEq,
{
    match lens.get_option() {
        None => true,
        Some(value) => lens == Lens::reverse_get(value),
    }
}

pub fn round_trip_2<Lens, Value>(v: Value) -> bool
where
    Lens: ReverseGet<Value> + GetOption<Value> + Copy + PartialEq,
    Value: PartialEq + Copy,
{
    Lens::reverse_get(v).get_option() == Some(v)
}

#[derive(Clone, Copy, Debug, PartialEq)]
enum XY {
    X(u8),
    Y(f32),
}

impl Optic<u8> for XY {
    fn focus(self) -> Option<u8> {
        match self {
            XY::X(n) => Some(n),
            XY::Y(_) => None,
        }
    }

    fn put(self, v: u8) -> Self {
        match self {
            XY::X(_) => XY::X(v),
            other => other,
        }
    }

    fn lemma_put_focus(self, _v: u8) {}

    fn lemma_put_absent(self, _v: u8) {}

    fn lemma_put_put(self, _v1: u8, _v2: u8) {}

    fn lemma_focus_put(self) {}
}

impl GetOption<u8> for XY {
    fn get_option(self) -> Option<u8> {
        match self {
            XY::X(n) => Some(n),
            XY::Y(_) => None,
        }
    }
}

impl ReverseGet<u8> for XY {
    fn wrap(value: u8) -> Self {
        XY::X(value)
    }

    fn lemma_wrap_focus(_value: u8) {}

    fn lemma_focus_wrap(self) {}

    fn reverse_get(value: u8) -> Self {
        XY::X(value)
    }
}

impl Optic<f32> for XY {
    fn focus(self) -> Option<f32> {
        match self {
            XY::X(_) => None,
            XY::Y(x) => Some(x),
        }
    }

    fn put(self, v: f32) -> Self {
        match self {
            XY::Y(_) => XY::Y(v),
            other => other,
        }
    }

    fn lemma_put_focus(self, _v: f32) {}

    fn lemma_put_absent(self, _v: f32) {}

    fn lemma_put_put(self, _v1: f32, _v2: f32) {}

    fn lemma_focus_put(self) {}
}

impl GetOption<f32> for XY {
    fn get_option(self) -> Option<f32> {
        match self {
            XY::X(_) => None,
            XY::Y(x) => Some(x),
        }
    }
}

impl ReverseGet<f32> for XY {
    fn wrap(value: f32) -> Self {
        XY::Y(value)
    }

    fn lemma_wrap_focus(_value: f32) {}

    fn lemma_focus_wrap(self) {}

    fn reverse_get(value: f32) -> Self {
        XY::Y(value)
    }
}

#[test]
fn prism_laws() {
    assert!(round_trip::<XY, u8>(XY::X(3)));
    assert!(round_trip_2::<XY, u8>(3));
    assert!(round_trip::<XY, f32>(XY::Y(3.0)));
    assert!(round_trip_2::<XY, f32>(3.0));
}
