//! The address bar: a home icon, the address input field between two
//! separators, and a close icon, laid out over the bar's height.

use vstd::prelude::*;

use crate::context::{Context, Dims};
use crate::event::{DeviceEvent, Event, GestureEvent, Hub, ViewId};
use crate::geom::{Point, Rect};
use crate::node::{KindTag, Node, NodeKind};
use crate::render::RenderQueue;

verus! {

pub struct AddressBar {
    pub id: u64,
    pub rect: Rect,
    pub children: Vec<Node>,
}

/// The rectangle of child `i` of an address bar with rectangle `rect`: the
/// square home icon, a separator, the input field, a separator, and the
/// square close icon, left to right.
pub open spec fn address_child_rect(i: int, rect: Rect, d: Dims) -> Rect {
    let side = rect.spec_height();
    let t = d.thickness as int;
    if i == 0 {
        Rect { min: rect.min, max: Point { x: (rect.min.x + side) as i32, y: rect.max.y } }
    } else if i == 1 {
        Rect {
            min: Point { x: (rect.min.x + side) as i32, y: rect.min.y },
            max: Point { x: (rect.min.x + side + t) as i32, y: rect.max.y },
        }
    } else if i == 2 {
        Rect {
            min: Point { x: (rect.min.x + side + t) as i32, y: rect.min.y },
            max: Point { x: (rect.max.x - side - t) as i32, y: rect.max.y },
        }
    } else if i == 3 {
        Rect {
            min: Point { x: (rect.max.x - side - t) as i32, y: rect.min.y },
            max: Point { x: (rect.max.x - side) as i32, y: rect.max.y },
        }
    } else {
        Rect { min: Point { x: (rect.max.x - side) as i32, y: rect.min.y }, max: rect.max }
    }
}

/// The five children have the address-bar shape: icon, separator, input
/// field carrying the given text, separator, icon, at their prescribed
/// rectangles.
pub open spec fn address_children_wf(s: Seq<Node>, rect: Rect, d: Dims, text: Seq<char>) -> bool {
    &&& s.len() == 5
    &&& (s[0].kind matches NodeKind::Icon { name } && name@ == "home"@)
    &&& s[1].tag() == KindTag::Filler
    &&& (s[2].kind matches NodeKind::InputField { input_id, text: t } && input_id
        == ViewId::AddressBarInput && t@ == text)
    &&& s[3].tag() == KindTag::Filler
    &&& (s[4].kind matches NodeKind::Icon { name } && name@ == "close"@)
    &&& forall|i: int| 0 <= i < 5 ==> (#[trigger] s[i]).rect == address_child_rect(i, rect, d)
}

impl AddressBar {
    /// Build the bar with the given initial address text.
    pub fn new(rect: Rect, text: &str, context: &mut Context) -> (a: AddressBar)
        requires
            old(context).wf(),
            old(context).ids.counter + 8 <= u64::MAX,
            rect.on_screen(),
        ensures
            a.rect == rect,
            a.id == old(context).ids.counter,
            address_children_wf(a.children@, rect, old(context).dims, text@),
            *final(context) == (Context { ids: final(context).ids, ..*old(context) }),
            final(context).ids.counter == old(context).ids.counter + 6,
    {
        let id = context.ids.next();
        let t = context.dims.thickness;
        let side = rect.height();
        let mut children: Vec<Node> = Vec::new();

        let home_icon = Node::new(
            context,
            Rect::new(rect.min.x, rect.min.y, rect.min.x + side, rect.max.y),
            NodeKind::Icon { name: String::from_str("home") },
            None,
        );
        children.push(home_icon);

        let separator = Node::new(
            context,
            Rect::new(rect.min.x + side, rect.min.y, rect.min.x + side + t, rect.max.y),
            NodeKind::Filler { color: 0 },
            None,
        );
        children.push(separator);

        let input_field = Node::new(
            context,
            Rect::new(rect.min.x + side + t, rect.min.y, rect.max.x - side - t, rect.max.y),
            NodeKind::InputField {
                input_id: ViewId::AddressBarInput,
                text: String::from_str(text),
            },
            None,
        );
        children.push(input_field);

        let separator = Node::new(
            context,
            Rect::new(rect.max.x - side - t, rect.min.y, rect.max.x - side, rect.max.y),
            NodeKind::Filler { color: 0 },
            None,
        );
        children.push(separator);

        let close_icon = Node::new(
            context,
            Rect::new(rect.max.x - side, rect.min.y, rect.max.x, rect.max.y),
            NodeKind::Icon { name: String::from_str("close") },
            None,
        );
        children.push(close_icon);

        AddressBar { id, rect, children }
    }

    /// Replace the text of the address input field.
    pub fn set_text(&mut self, text: &str, rq: &mut RenderQueue, context: &mut Context)
        requires
            old(self).children@.len() == 5,
        ensures
            final(self).children@.len() == 5,
            *final(self) == (AddressBar { children: final(self).children, ..*old(self) }),
            forall|i: int|
                #![trigger final(self).children@[i]]
                0 <= i < 5 && i != 2 ==> final(self).children@[i] == old(self).children@[i],
            ({
                let pre = old(self).children@[2];
                let post = final(self).children@[2];
                &&& post.id == pre.id
                &&& post.rect == pre.rect
                &&& post.view_id == pre.view_id
                &&& if pre.kind matches NodeKind::InputField { .. } {
                    post.kind matches NodeKind::InputField { input_id, text: t } && t@ == text@
                        && (pre.kind matches NodeKind::InputField { input_id: p, .. } && input_id
                        == p)
                } else {
                    post.kind == pre.kind
                }
            }),
            final(rq).entries@ =~= old(rq).entries@,
            *final(context) == *old(context),
    {
        let ghost prev = self.children@;
        let node = &mut self.children[2];
        match &mut node.kind {
            NodeKind::InputField { text: t, .. } => {
                *t = String::from_str(text);
            },
            _ => {},
        }
        proof {
            assert(self.children@ =~= prev.update(2, self.children@[2]));
        }
    }

    /// A pointer event inside the bar is consumed (the bar's own widgets act
    /// on it); everything else is left for other views.
    pub fn handle_event(&mut self, evt: &Event, hub: &mut Hub, rq: &mut RenderQueue, context: &mut Context) -> (r: bool)
        ensures
            *final(self) == *old(self),
            final(rq).entries@ =~= old(rq).entries@,
            final(hub).events@ =~= old(hub).events@,
            *final(context) == *old(context),
            r == spec_address_bar_handles(*evt, old(self).rect),
    {
        match evt {
            Event::Gesture(GestureEvent::Tap(center)) => self.rect.includes(*center),
            Event::Gesture(GestureEvent::HoldFingerShort(center)) => self.rect.includes(*center),
            Event::Gesture(GestureEvent::Swipe { start, .. }) => self.rect.includes(*start),
            Event::Device(DeviceEvent::Finger { position }) => self.rect.includes(*position),
            _ => false,
        }
    }

    /// Recompute the five children's rectangles for a new bounding box.
    pub fn resize(&mut self, rect: Rect, hub: &mut Hub, rq: &mut RenderQueue, context: &mut Context)
        requires
            old(context).wf(),
            old(self).children@.len() == 5,
            rect.on_screen(),
        ensures
            final(self).rect == rect,
            final(self).id == old(self).id,
            final(self).children@.len() == 5,
            forall|i: int|
                #![trigger final(self).children@[i]]
                0 <= i < 5 ==> final(self).children@[i].rect == address_child_rect(
                    i,
                    rect,
                    old(context).dims,
                ) && final(self).children@[i].kind == old(self).children@[i].kind
                    && final(self).children@[i].id == old(self).children@[i].id,
            final(rq).entries@ =~= old(rq).entries@,
            final(hub).events@ =~= old(hub).events@,
            *final(context) == *old(context),
    {
        let t = context.dims.thickness;
        let side = rect.height();
        self.children[0].rect = Rect::new(rect.min.x, rect.min.y, rect.min.x + side, rect.max.y);
        self.children[1].rect = Rect::new(
            rect.min.x + side,
            rect.min.y,
            rect.min.x + side + t,
            rect.max.y,
        );
        self.children[2].rect = Rect::new(
            rect.min.x + side + t,
            rect.min.y,
            rect.max.x - side - t,
            rect.max.y,
        );
        self.children[3].rect = Rect::new(
            rect.max.x - side - t,
            rect.min.y,
            rect.max.x - side,
            rect.max.y,
        );
        self.children[4].rect = Rect::new(rect.max.x - side, rect.min.y, rect.max.x, rect.max.y);
        self.rect = rect;
    }

    pub fn rect(&self) -> (r: &Rect)
        ensures
            r == self.rect,
    {
        &self.rect
    }

    pub fn children(&self) -> (r: &Vec<Node>)
        ensures
            r == self.children,
    {
        &self.children
    }

    pub fn id(&self) -> (r: u64)
        ensures
            r == self.id,
    {
        self.id
    }
}

/// The pointer events the address bar consumes: taps, short holds and finger
/// positions inside it, and swipes that start inside it.
pub open spec fn spec_address_bar_handles(evt: Event, rect: Rect) -> bool {
    match evt {
        Event::Gesture(GestureEvent::Tap(center)) => rect.spec_includes(center),
        Event::Gesture(GestureEvent::HoldFingerShort(center)) => rect.spec_includes(center),
        Event::Gesture(GestureEvent::Swipe { start, .. }) => rect.spec_includes(start),
        Event::Device(DeviceEvent::Finger { position }) => rect.spec_includes(position),
        _ => false,
    }
}

} // verus!
