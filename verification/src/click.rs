//! Click hit-testing against the static scene.
//!
//! The scene is a fixed picture: the campfire, four characters and three
//! owls, each behind one or two axis-aligned boxes.  Coordinates are in
//! thousandths of a pixel, with the y axis growing downwards, so a box is
//! given as (left, bottom, right, top) with `bottom >= top`.  The boxes are
//! tried in a fixed order and the first hit wins.

use vstd::prelude::*;

verus! {

/// The clickable objects of the scene.
#[derive(Copy, Clone, Debug, PartialEq, Eq, Structural)]
pub enum GameObject {
    Fire,
    Man1,
    Man2,
    Girl1,
    Girl2,
    Owl1,
    Owl2,
    Owl3,
}

/// Whether a point lies inside a box given as (left, bottom, right, top),
/// all bounds inclusive, y growing downwards.
pub open spec fn in_box(x: int, y: int, bound: (int, int, int, int)) -> bool {
    bound.0 <= x <= bound.2 && bound.3 <= y <= bound.1
}

/// The object a click at (x, y) lands on, if any: the boxes are tried in a
/// fixed order and the first containing box decides.
pub open spec fn clicked_object_spec(x: int, y: int) -> Option<GameObject> {
    if in_box(x, y, (463000, 695000, 796000, 644000)) {
        Some(GameObject::Fire)
    } else if in_box(x, y, (559000, 630000, 669000, 519000)) {
        Some(GameObject::Fire)
    } else if in_box(x, y, (330000, 603000, 506000, 368000)) {
        Some(GameObject::Man1)
    } else if in_box(x, y, (915000, 672000, 990000, 570000)) {
        Some(GameObject::Man2)
    } else if in_box(x, y, (1001000, 688000, 1148000, 387000)) {
        Some(GameObject::Man2)
    } else if in_box(x, y, (72000, 719000, 309000, 437000)) {
        Some(GameObject::Girl1)
    } else if in_box(x, y, (752000, 590000, 885000, 366000)) {
        Some(GameObject::Girl2)
    } else if in_box(x, y, (55000, 292000, 117000, 242000)) {
        Some(GameObject::Owl1)
    } else if in_box(x, y, (139000, 65000, 196000, 25000)) {
        Some(GameObject::Owl2)
    } else if in_box(x, y, (1125000, 161000, 1182000, 109000)) {
        Some(GameObject::Owl3)
    } else {
        None
    }
}

/// Whether the point (x, y) lies inside the given (left, bottom, right, top)
/// box.
fn check(x: i64, y: i64, bound: (i64, i64, i64, i64)) -> (r: bool)
    ensures
        r == in_box(x as int, y as int, (bound.0 as int, bound.1 as int, bound.2 as int, bound.3 as int)),
{
    x >= bound.0 && x <= bound.2 && y <= bound.1 && y >= bound.3
}

/// Find the object a click at (x, y) lands on.  Coordinates are in
/// thousandths of a pixel.
pub fn get_clicked_object(x: i64, y: i64) -> (r: Option<GameObject>)
    ensures
        r == clicked_object_spec(x as int, y as int),
{
    let fire: (i64, i64, i64, i64) = (463000, 695000, 796000, 644000);
    let fire_2: (i64, i64, i64, i64) = (559000, 630000, 669000, 519000);
    let man1: (i64, i64, i64, i64) = (330000, 603000, 506000, 368000);
    let man2: (i64, i64, i64, i64) = (915000, 672000, 990000, 570000);
    let man2_2: (i64, i64, i64, i64) = (1001000, 688000, 1148000, 387000);
    let girl1: (i64, i64, i64, i64) = (72000, 719000, 309000, 437000);
    let girl2: (i64, i64, i64, i64) = (752000, 590000, 885000, 366000);
    let owl1: (i64, i64, i64, i64) = (55000, 292000, 117000, 242000);
    let owl2: (i64, i64, i64, i64) = (139000, 65000, 196000, 25000);
    let owl3: (i64, i64, i64, i64) = (1125000, 161000, 1182000, 109000);

    if check(x, y, fire) {
        Some(GameObject::Fire)
    } else if check(x, y, fire_2) {
        Some(GameObject::Fire)
    } else if check(x, y, man1) {
        Some(GameObject::Man1)
    } else if check(x, y, man2) {
        Some(GameObject::Man2)
    } else if check(x, y, man2_2) {
        Some(GameObject::Man2)
    } else if check(x, y, girl1) {
        Some(GameObject::Girl1)
    } else if check(x, y, girl2) {
        Some(GameObject::Girl2)
    } else if check(x, y, owl1) {
        Some(GameObject::Owl1)
    } else if check(x, y, owl2) {
        Some(GameObject::Owl2)
    } else if check(x, y, owl3) {
        Some(GameObject::Owl3)
    } else {
        None
    }
}

} // verus!
