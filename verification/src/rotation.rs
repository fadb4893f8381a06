//! The rotation-calibration screen: eight corner taps walk the display
//! through its rotations so the mirroring and swap values can be read off.
//! Drawing the prompts and triangles is the renderer's work; the engine owns
//! the tap-count state machine.

use vstd::prelude::*;

use crate::context::Context;
use crate::event::{Event, GestureEvent, Hub};
use crate::geom::{Point, Rect};
use crate::node::Node;
use crate::render::{RenderData, RenderQueue, UpdateMode};

verus! {

/// Corner taps per phase.
pub const CORNERS_COUNT: i8 = 4;

pub struct RotationValues {
    pub id: u64,
    pub rect: Rect,
    pub children: Vec<Node>,
    pub mirror_x: bool,
    pub mirror_y: bool,
    pub swap_xy: bool,
    pub width: i32,
    pub height: i32,
    pub read_rotation: i8,
    pub written_rotation: i8,
    pub taps_count: i8,
}

impl RotationValues {
    /// Build the calibration screen from the current display state and queue
    /// a full-mode refresh.
    pub fn new(rect: Rect, rq: &mut RenderQueue, context: &mut Context) -> (v: RotationValues)
        requires
            old(context).ids.counter < u64::MAX,
        ensures
            v.id == old(context).ids.counter,
            v.rect == rect,
            v.children@ =~= Seq::<Node>::empty(),
            v.mirror_x == old(context).display.mirror_x,
            v.mirror_y == old(context).display.mirror_y,
            v.swap_xy == old(context).display.swap_xy,
            v.width == old(context).display.width,
            v.height == old(context).display.height,
            v.read_rotation == old(context).fb_rotation,
            v.written_rotation == old(context).display.rotation,
            v.taps_count == 0,
            final(rq).entries@ =~= old(rq).entries@.push(
                RenderData { id: Some(v.id), rect, mode: UpdateMode::Full },
            ),
            *final(context) == (Context { ids: final(context).ids, ..*old(context) }),
            final(context).ids.counter == old(context).ids.counter + 1,
    {
        let id = context.ids.next();
        rq.add(RenderData::new(id, rect, UpdateMode::Full));
        RotationValues {
            id,
            rect,
            children: Vec::new(),
            mirror_x: context.display.mirror_x,
            mirror_y: context.display.mirror_y,
            swap_xy: context.display.swap_xy,
            width: context.display.width,
            height: context.display.height,
            read_rotation: context.fb_rotation,
            written_rotation: context.display.rotation,
            taps_count: 0,
        }
    }

    /// Count a corner tap.  From the fifth tap on, each tap asks the display
    /// for the next rotation (the final tap restores the recorded one) and
    /// resets the screen to the display's whole rectangle; the eighth tap
    /// finishes the calibration and asks to go back.
    pub fn handle_event(
        &mut self,
        evt: &Event,
        hub: &mut Hub,
        rq: &mut RenderQueue,
        context: &mut Context,
    ) -> (r: bool)
        requires
            0 <= old(self).taps_count < 100,
            old(context).display.width >= 0,
            old(context).display.height >= 0,
        ensures
            r == ((*evt) is Gesture && (*evt)->Gesture_0 is Tap),
            !((*evt) is Gesture && (*evt)->Gesture_0 is Tap) ==> {
                &&& *final(self) == *old(self)
                &&& final(rq).entries@ =~= old(rq).entries@
                &&& final(hub).events@ =~= old(hub).events@
                &&& *final(context) == *old(context)
            },
            (*evt) is Gesture && (*evt)->Gesture_0 is Tap ==> {
                let taps = old(self).taps_count + 1;
                let finished = taps >= 2 * CORNERS_COUNT;
                let turning = taps >= CORNERS_COUNT;
                let rotation = if finished {
                    old(self).written_rotation as int
                } else {
                    taps - CORNERS_COUNT
                };
                &&& final(self).taps_count == taps
                &&& if turning {
                    &&& final(self).children@ =~= Seq::<Node>::empty()
                    &&& final(self).rect == (Rect {
                        min: Point { x: 0, y: 0 },
                        max: Point {
                            x: old(context).display.width,
                            y: old(context).display.height,
                        },
                    })
                    &&& final(context).display.rotation == rotation
                    &&& *final(context) == (Context {
                        display: final(context).display,
                        ..*old(context)
                    })
                    &&& final(self).written_rotation == rotation
                } else {
                    &&& *final(self) == (RotationValues { taps_count: taps as i8, ..*old(self) })
                    &&& *final(context) == *old(context)
                }
                &&& if finished {
                    &&& final(hub).events@ =~= old(hub).events@.push(Event::Back)
                    &&& final(rq).entries@ =~= old(rq).entries@
                } else {
                    &&& final(hub).events@ =~= old(hub).events@
                    &&& final(rq).entries@ =~= old(rq).entries@.push(
                        RenderData {
                            id: Some(old(self).id),
                            rect: final(self).rect,
                            mode: UpdateMode::Full,
                        },
                    )
                }
            },
    {
        match evt {
            Event::Gesture(GestureEvent::Tap(_)) => {
                self.taps_count = self.taps_count + 1;
                let finished = self.taps_count >= 2 * CORNERS_COUNT;

                if self.taps_count >= CORNERS_COUNT {
                    let rotation = if finished {
                        self.written_rotation
                    } else {
                        self.taps_count - CORNERS_COUNT
                    };
                    context.display.rotation = rotation;
                    self.written_rotation = rotation;
                    self.children.clear();
                    self.rect = Rect::new(0, 0, context.display.width, context.display.height);
                }

                if finished {
                    hub.send(Event::Back);
                } else {
                    rq.add(RenderData::new(self.id, self.rect, UpdateMode::Full));
                }

                true
            },
            _ => false,
        }
    }

    pub fn rect(&self) -> (r: &Rect)
        ensures
            r == self.rect,
    {
        &self.rect
    }

    pub fn children(&self) -> (r: &Vec<Node>)
        ensures
            r == self.children,
    {
        &self.children
    }

    pub fn id(&self) -> (r: u64)
        ensures
            r == self.id,
    {
        self.id
    }

    /// The calibration screen opts out of gesture-driven rotation while it
    /// measures.
    pub fn might_rotate(&self) -> (r: bool)
        ensures
            r == false,
    {
        false
    }
}

} // verus!
