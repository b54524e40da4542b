//! Optional visualization: collider outlines as debug line segments.

use vstd::prelude::*;

use crate::collider::Shape;
use crate::math::{add_sat, clamp64, div_to_zero, div_trunc, sub_sat, Vector3};
use crate::systems::{preserves_shape, Resources, ResourcesV};

verus! {

/// An sRGB color with alpha, eight bits per channel.
#[derive(Clone, Copy, Debug, PartialEq, Eq, Structural)]
pub struct Srgba {
    pub red: u8,
    pub green: u8,
    pub blue: u8,
    pub alpha: u8,
}

/// One line segment of the debug overlay.
#[derive(Clone, Copy, Debug, PartialEq, Eq, Structural)]
pub struct DebugLine {
    pub start: Vector3,
    pub end: Vector3,
    pub color: Srgba,
}

/// The debug-overlay resource: the line segments drawn this tick, in draw
/// order, for the renderer to consume.
pub struct DebugLines {
    pub lines: Vec<DebugLine>,
}

impl DebugLines {
    /// An empty overlay.
    pub fn new() -> (r: DebugLines)
        ensures
            r.lines@ =~= Seq::<DebugLine>::empty(),
    {
        DebugLines { lines: Vec::new() }
    }

    /// Appends one line segment.
    pub fn draw_line(&mut self, start: Vector3, end: Vector3, color: Srgba)
        ensures
            final(self).lines@ == old(self).lines@.push(DebugLine { start, end, color }),
    {
        self.lines.push(DebugLine { start, end, color });
    }
}

/// The color rectangle outlines are drawn in: light blue for sensors,
/// magenta for solid colliders.
pub open spec fn outline_color(sensor: bool) -> Srgba {
    if sensor {
        Srgba { red: 33, green: 166, blue: 240, alpha: 255 }
    } else {
        Srgba { red: 207, green: 0, blue: 128, alpha: 255 }
    }
}

/// The four segments outlining a rectangle collider of full extents
/// `w` by `h`, centered at the entity's transform translation plus the
/// collider's configured offset, drawn clockwise from the top edge. The
/// depth axis keeps the center's value.
pub open spec fn rectangle_outline(center: Vector3, w: i64, h: i64, color: Srgba) -> Seq<
    DebugLine,
> {
    let hw = div_to_zero(w as int, 2);
    let hh = div_to_zero(h as int, 2);
    let left = clamp64(center.x - hw) as i64;
    let right = clamp64(center.x + hw) as i64;
    let bottom = clamp64(center.y - hh) as i64;
    let top = clamp64(center.y + hh) as i64;
    let z = center.z;
    seq![
        DebugLine {
            start: Vector3 { x: left, y: top, z },
            end: Vector3 { x: right, y: top, z },
            color,
        },
        DebugLine {
            start: Vector3 { x: right, y: top, z },
            end: Vector3 { x: right, y: bottom, z },
            color,
        },
        DebugLine {
            start: Vector3 { x: right, y: bottom, z },
            end: Vector3 { x: left, y: bottom, z },
            color,
        },
        DebugLine {
            start: Vector3 { x: left, y: bottom, z },
            end: Vector3 { x: left, y: top, z },
            color,
        },
    ]
}

/// The effect of drawing one entity's collider outline: a rectangle
/// collider paired with a transform appends its four outline segments;
/// circle colliders and entities without both components draw nothing.
pub open spec fn debug_one(r: ResourcesV, id: u32) -> ResourcesV {
    if r.colliders.contains_key(id) && r.transforms.contains_key(id) {
        let pc = r.colliders[id];
        match pc.shape {
            Shape::Rectangle(w, h, _d) => {
                let center = r.transforms[id].translation.spec_add(
                    pc.offset_from_parent.translation,
                );
                ResourcesV {
                    debug_lines: r.debug_lines + rectangle_outline(
                        center,
                        w,
                        h,
                        outline_color(pc.sensor),
                    ),
                    ..r
                }
            },
            _ => r,
        }
    } else {
        r
    }
}

/// The effect of drawing every entity index below `n`, in increasing
/// order.
pub open spec fn debug_upto(r: ResourcesV, n: nat) -> ResourcesV
    decreases n,
{
    if n == 0 {
        r
    } else {
        debug_one(debug_upto(r, (n - 1) as nat), ((n - 1) as nat) as u32)
    }
}

/// The debug stage over the whole `PhysicsCollider` storage.
pub open spec fn debug_stage(pre: ResourcesV, collider_slot_count: nat) -> ResourcesV {
    debug_upto(pre, collider_slot_count)
}

/// The optional debug overlay system: a pure read-only consumer of
/// collider and transform state that renders rectangle collider outlines
/// as line segments.
pub struct DebugSystem {}

impl Default for DebugSystem {
    /// The debug system holds no state.
    fn default() -> (r: Self)
        ensures
            r == (DebugSystem {  }),
    {
        DebugSystem {  }
    }
}

impl DebugSystem {
    /// Draws the outline of every rectangle collider paired with a
    /// transform, as [`debug_one`] describes.
    pub fn run(&mut self, res: &mut Resources)
        requires
            old(res).physics_colliders.slots@.len() <= u32::MAX as int + 1,
        ensures
            final(res)@ == debug_stage(old(res)@, old(res).physics_colliders.slots@.len() as nat),
            preserves_shape(*old(res), *final(res)),
            old(res)@.world.wf() ==> final(res)@.world.wf(),
    {
        let n = res.physics_colliders.slots.len();
        let mut k: usize = 0;
        while k < n
            invariant
                k <= n,
                n == res.physics_colliders.slots@.len(),
                n <= u32::MAX as int + 1,
                res@ == debug_upto(old(res)@, k as nat),
                preserves_shape(*old(res), *res),
                old(res)@.world.wf() ==> res@.world.wf(),
            decreases n - k,
        {
            let ghost prev = res@;
            let id = k as u32;
            let found = match (res.physics_colliders.get(id), res.transforms.get(id)) {
                (Some(c), Some(t)) => Some((*c, *t)),
                _ => None,
            };
            if let Some((collider, transform)) = found {
                match collider.shape {
                    Shape::Rectangle(w, h, _d) => {
                        let center = transform.translation.add_vec(
                            &collider.offset_from_parent.translation,
                        );
                        let color = if collider.sensor {
                            Srgba { red: 33, green: 166, blue: 240, alpha: 255 }
                        } else {
                            Srgba { red: 207, green: 0, blue: 128, alpha: 255 }
                        };
                        let hw = div_trunc(w, 2);
                        let hh = div_trunc(h, 2);
                        let left = sub_sat(center.x, hw);
                        let right = add_sat(center.x, hw);
                        let bottom = sub_sat(center.y, hh);
                        let top = add_sat(center.y, hh);
                        let z = center.z;
                        res.debug_lines.draw_line(
                            Vector3 { x: left, y: top, z },
                            Vector3 { x: right, y: top, z },
                            color,
                        );
                        res.debug_lines.draw_line(
                            Vector3 { x: right, y: top, z },
                            Vector3 { x: right, y: bottom, z },
                            color,
                        );
                        res.debug_lines.draw_line(
                            Vector3 { x: right, y: bottom, z },
                            Vector3 { x: left, y: bottom, z },
                            color,
                        );
                        res.debug_lines.draw_line(
                            Vector3 { x: left, y: bottom, z },
                            Vector3 { x: left, y: top, z },
                            color,
                        );
                    },
                    _ => {},
                }
            }
            proof {
                assert(res@.debug_lines =~= debug_one(prev, id).debug_lines);
                assert(res@ =~~= debug_one(prev, id));
            }
            k = k + 1;
        }
    }
}

} // verus!
