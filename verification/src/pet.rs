//! Pet placement and surface rules: the pet sits at the bottom-right edge of the
//! work area of the monitor under the pointer, and moves only when that monitor
//! changes.

use crate::rhythm::PetState;
use crate::text::{
    lemma_signed_decimal_injective, lemma_signed_decimal_reads_back, push_signed_decimal,
    signed_decimal,
};
use vstd::prelude::*;

verus! {

/// Window label of the pet surface.
pub const PET_LABEL: &'static str = "pet";

/// Pet window width, in physical pixels.
pub const PET_WIDTH: u32 = 120;

/// Pet window height, in physical pixels.
pub const PET_HEIGHT: u32 = 120;

/// Gap between the pet and the work-area edges, in physical pixels.
pub const MARGIN: i32 = 16;

/// Each intermediate sum of the edge placement stays within `i32`.
pub open spec fn edge_axis_fits(start: i32, extent: u32, pet_extent: u32, margin: i32) -> bool {
    &&& i32::MIN <= start + (extent as i32) <= i32::MAX
    &&& i32::MIN <= start + (extent as i32) - (pet_extent as i32) <= i32::MAX
    &&& i32::MIN <= start + (extent as i32) - (pet_extent as i32) - margin <= i32::MAX
}

/// Bottom-right of the work area, inset by `margin` (physical pixels).
pub fn pet_edge_position(
    work_x: i32,
    work_y: i32,
    work_w: u32,
    work_h: u32,
    pet_w: u32,
    pet_h: u32,
    margin: i32,
) -> (pos: (i32, i32))
    requires
        edge_axis_fits(work_x, work_w, pet_w, margin),
        edge_axis_fits(work_y, work_h, pet_h, margin),
    ensures
        pos.0 == work_x + (work_w as i32) - (pet_w as i32) - margin,
        pos.1 == work_y + (work_h as i32) - (pet_h as i32) - margin,
{
    let x = work_x + work_w as i32 - pet_w as i32 - margin;
    let y = work_y + work_h as i32 - pet_h as i32 - margin;
    (x, y)
}

/// Character-by-character equality of two strings.
fn str_eq(a: &str, b: &str) -> (eq: bool)
    ensures
        eq == (a@ == b@),
{
    let n = a.unicode_len();
    if n != b.unicode_len() {
        return false;
    }
    let mut i: usize = 0;
    while i < n
        invariant
            n == a@.len(),
            n == b@.len(),
            i <= n,
            forall|j: int| 0 <= j < i ==> a@[j] == b@[j],
        decreases n - i,
    {
        if a.get_char(i) != b.get_char(i) {
            return false;
        }
        i += 1;
    }
    assert(a@ =~= b@);
    true
}

/// Move only when the monitor under the pointer changes.
pub fn should_reposition(prev_key: Option<&str>, current_key: &str) -> (moved: bool)
    ensures
        moved == !(prev_key matches Some(prev) && prev@ == current_key@),
{
    match prev_key {
        Some(prev) => !str_eq(prev, current_key),
        None => true,
    }
}

/// Identity of a monitor that has no name: `x:y:WxH` of its position and size.
pub open spec fn geometry_key(x: i32, y: i32, width: u32, height: u32) -> Seq<char> {
    signed_decimal(x as int) + seq![':'] + signed_decimal(y as int) + seq![':'] + signed_decimal(
        width as int,
    ) + seq!['x'] + signed_decimal(height as int)
}

proof fn lemma_signed_decimal_has_no_separator(i: int)
    ensures
        forall|k: int|
            0 <= k < signed_decimal(i).len() ==> #[trigger] signed_decimal(i)[k] != ':'
                && signed_decimal(i)[k] != 'x',
{
    lemma_signed_decimal_reads_back(i);
    assert forall|k: int| 0 <= k < signed_decimal(i).len() implies #[trigger] signed_decimal(
        i,
    )[k] != ':' && signed_decimal(i)[k] != 'x' by {
        if !(i < 0 && k == 0) {
            assert(crate::text::is_digit(signed_decimal(i)[k]));
        }
    }
}

proof fn lemma_split_at_separator(
    c: char,
    p1: Seq<char>,
    r1: Seq<char>,
    p2: Seq<char>,
    r2: Seq<char>,
)
    requires
        p1 + seq![c] + r1 == p2 + seq![c] + r2,
        forall|k: int| 0 <= k < p1.len() ==> #[trigger] p1[k] != c,
        forall|k: int| 0 <= k < p2.len() ==> #[trigger] p2[k] != c,
    ensures
        p1 == p2,
        r1 == r2,
{
    let whole = p1 + seq![c] + r1;
    if p1.len() < p2.len() {
        assert(whole[p1.len() as int] == c);
        assert((p2 + seq![c] + r2)[p1.len() as int] == p2[p1.len() as int]);
    } else if p2.len() < p1.len() {
        assert((p2 + seq![c] + r2)[p2.len() as int] == c);
        assert(whole[p2.len() as int] == p1[p2.len() as int]);
    }
    assert(p1 =~= whole.subrange(0, p1.len() as int));
    assert(p2 =~= (p2 + seq![c] + r2).subrange(0, p2.len() as int));
    assert(r1 =~= whole.subrange(p1.len() as int + 1, whole.len() as int));
    assert(r2 =~= (p2 + seq![c] + r2).subrange(p2.len() as int + 1, whole.len() as int));
}

/// Unnamed monitors at different positions or of different sizes get different
/// keys, so moving the pointer between any two of them moves the pet.
pub proof fn lemma_geometry_key_injective(
    x1: i32,
    y1: i32,
    w1: u32,
    h1: u32,
    x2: i32,
    y2: i32,
    w2: u32,
    h2: u32,
)
    requires
        geometry_key(x1, y1, w1, h1) == geometry_key(x2, y2, w2, h2),
    ensures
        x1 == x2,
        y1 == y2,
        w1 == w2,
        h1 == h2,
{
    let (a1, b1, c1, d1) = (
        signed_decimal(x1 as int),
        signed_decimal(y1 as int),
        signed_decimal(w1 as int),
        signed_decimal(h1 as int),
    );
    let (a2, b2, c2, d2) = (
        signed_decimal(x2 as int),
        signed_decimal(y2 as int),
        signed_decimal(w2 as int),
        signed_decimal(h2 as int),
    );
    lemma_signed_decimal_has_no_separator(x1 as int);
    lemma_signed_decimal_has_no_separator(y1 as int);
    lemma_signed_decimal_has_no_separator(w1 as int);
    lemma_signed_decimal_has_no_separator(x2 as int);
    lemma_signed_decimal_has_no_separator(y2 as int);
    lemma_signed_decimal_has_no_separator(w2 as int);
    let rest1 = b1 + seq![':'] + (c1 + seq!['x'] + d1);
    let rest2 = b2 + seq![':'] + (c2 + seq!['x'] + d2);
    assert(geometry_key(x1, y1, w1, h1) =~= a1 + seq![':'] + rest1);
    assert(geometry_key(x2, y2, w2, h2) =~= a2 + seq![':'] + rest2);
    lemma_split_at_separator(':', a1, rest1, a2, rest2);
    lemma_split_at_separator(':', b1, c1 + seq!['x'] + d1, b2, c2 + seq!['x'] + d2);
    lemma_split_at_separator('x', c1, d1, c2, d2);
    lemma_signed_decimal_injective(x1 as int, x2 as int);
    lemma_signed_decimal_injective(y1 as int, y2 as int);
    lemma_signed_decimal_injective(w1 as int, w2 as int);
    lemma_signed_decimal_injective(h1 as int, h2 as int);
}

/// The key a monitor is remembered by: its name, or its geometry when unnamed.
pub fn monitor_key(name: Option<&str>, x: i32, y: i32, width: u32, height: u32) -> (key: String)
    ensures
        key@ == match name {
            Some(n) => n@,
            None => geometry_key(x, y, width, height),
        },
{
    match name {
        Some(n) => String::from_str(n),
        None => {
            let mut key = String::new();
            push_signed_decimal(&mut key, x as i64);
            key.append(":");
            push_signed_decimal(&mut key, y as i64);
            key.append(":");
            push_signed_decimal(&mut key, width as i64);
            key.append("x");
            push_signed_decimal(&mut key, height as i64);
            proof {
                reveal_strlit(":");
                reveal_strlit("x");
                assert(":"@ =~= seq![':']);
                assert("x"@ =~= seq!['x']);
                assert(key@ =~= geometry_key(x, y, width, height));
            }
            key
        },
    }
}

/// Last monitor the pet was placed on (name or geometry key).
pub struct PetFollowState {
    pub last_monitor_key: Option<String>,
}

impl PetFollowState {
    /// The monitor under the pointer, known by `key`, differs from the last one.
    pub open spec fn moves_to(&self, key: Seq<char>) -> bool {
        !(self.last_monitor_key matches Some(last) && last@ == key)
    }

    /// Place the pet for the monitor under the pointer: when that monitor
    /// changed, remember it and return the bottom-right edge position of its
    /// work area; otherwise keep everything and return `None`.
    pub fn follow(
        &mut self,
        key: &str,
        work_x: i32,
        work_y: i32,
        work_w: u32,
        work_h: u32,
    ) -> (pos: Option<(i32, i32)>)
        requires
            old(self).moves_to(key@) ==> edge_axis_fits(work_x, work_w, PET_WIDTH, MARGIN)
                && edge_axis_fits(work_y, work_h, PET_HEIGHT, MARGIN),
        ensures
            old(self).moves_to(key@) ==> {
                &&& final(self).last_monitor_key matches Some(last) && last@ == key@
                &&& pos == Some(
                    (
                        (work_x + (work_w as i32) - (PET_WIDTH as i32) - MARGIN) as i32,
                        (work_y + (work_h as i32) - (PET_HEIGHT as i32) - MARGIN) as i32,
                    ),
                )
            },
            !old(self).moves_to(key@) ==> pos is None && final(self).last_monitor_key
                == old(self).last_monitor_key,
    {
        let moves = match &self.last_monitor_key {
            Some(last) => should_reposition(Some(last.as_str()), key),
            None => should_reposition(None, key),
        };
        if !moves {
            return None;
        }
        self.last_monitor_key = Some(String::from_str(key));
        Some(pet_edge_position(work_x, work_y, work_w, work_h, PET_WIDTH, PET_HEIGHT, MARGIN))
    }
}

/// The CSS class / label of each pet state.
pub open spec fn surface_text(state: PetState) -> Seq<char> {
    match state {
        PetState::Idle => "idle"@,
        PetState::Nudge => "nudge"@,
        PetState::Rest => "rest"@,
    }
}

/// Different pet states get different surface labels.
pub proof fn lemma_surface_labels_distinct(a: PetState, b: PetState)
    requires
        surface_text(a) == surface_text(b),
    ensures
        a == b,
{
    reveal_strlit("idle");
    reveal_strlit("nudge");
    reveal_strlit("rest");
    assert("idle"@.len() == 4 && "idle"@[0] == 'i');
    assert("nudge"@.len() == 5 && "nudge"@[0] == 'n');
    assert("rest"@.len() == 4 && "rest"@[0] == 'r');
    assert(surface_text(a).len() == surface_text(b).len());
    assert(surface_text(a)[0] == surface_text(b)[0]);
}

/// CSS class / label of the pet surface for each pet state.
pub fn pet_surface_label(state: PetState) -> (label: &'static str)
    ensures
        label@ == match state {
            PetState::Idle => "idle"@,
            PetState::Nudge => "nudge"@,
            PetState::Rest => "rest"@,
        },
        label@ == surface_text(state),
{
    match state {
        PetState::Idle => "idle",
        PetState::Nudge => "nudge",
        PetState::Rest => "rest",
    }
}

} // verus!
