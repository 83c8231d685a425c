//! Enums: kinds without data, kinds that carry data, and methods on them.

use vstd::prelude::*;

verus! {

/// The two kinds of IP address.
#[allow(dead_code)]
enum IpAddrKind {
    V4,
    V6,
}

/// An address kept as its kind beside its text.
#[allow(dead_code)]
struct IpAddr {
    kind: IpAddrKind,
    address: String,
}

/// An address whose kind carries its text.
#[allow(dead_code)]
enum IpAddr2 {
    V4(String),
    V6(String),
}

/// An address whose kind carries data of its own shape.
#[allow(dead_code)]
enum IpAddr3 {
    V4(u8, u8, u8, u8),
    V6(String),
}

/// Variants of many shapes in one enum.
#[allow(dead_code)]
enum Message {
    Quit,
    Move { x: i32, y: i32 },
    Write(String),
    ChangeColor(i32, i32, i32),
}

impl Message {
    /// A method on the enum, called on any of its variants.
    fn call(&self) {
    }
}

/// Takes an address kind of either variant.
fn route(ip_kind: IpAddrKind) {
}

/// Builds values of each of the enums above.
pub fn defining_enums() {
    let four = IpAddrKind::V4;
    let six = IpAddrKind::V6;
    route(four);
    route(six);

    let home = IpAddr { kind: IpAddrKind::V4, address: String::from_str("127.0.0.1") };
    let loopback = IpAddr { kind: IpAddrKind::V6, address: String::from_str("::1") };

    let home = IpAddr2::V4(String::from_str("127.0.0.1"));
    let loopback = IpAddr2::V6(String::from_str("::1"));

    let home = IpAddr3::V4(127, 0, 0, 1);
    let loopback = IpAddr3::V6(String::from_str("::1"));

    let m = Message::Write(String::from_str("hello"));
    m.call();
}

} // verus!
