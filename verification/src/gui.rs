//! Overlay widgets: a clickable button and a draggable track bar, built on
//! an axis-aligned screen rectangle.  Widgets queue the events they fire;
//! the overlay drains the queue each frame.

use vstd::prelude::*;
use crate::camera::Point;
use crate::fixed::{add_fx, div_fx, fx_add, fx_div, fx_mul, fx_sub, mul_fx, sub_fx};
use crate::input::{ElementState, Event, MouseButton};
use crate::vec3::Vector3D;
use crate::world::ChangedProperties;

verus! {

#[derive(Clone, Copy, PartialEq, Eq, Structural, Debug)]
pub enum ControllEvent {
    Click,
    Changed,
}

#[derive(Clone, Copy, PartialEq, Eq, Structural, Debug)]
pub struct Rect {
    pub color: Vector3D,
    pub x: i64,
    pub y: i64,
    pub width: i64,
    pub height: i64,
}

/// A point is inside a rectangle when it lies within both of its spans,
/// borders included.
pub open spec fn rect_contains(r: Rect, x: int, y: int) -> bool {
    &&& x >= r.x
    &&& x <= fx_add(r.x as int, r.width as int)
    &&& y >= r.y
    &&& y <= fx_add(r.y as int, r.height as int)
}

impl Rect {
    pub fn new(x: i64, y: i64, width: i64, height: i64) -> (r: Rect)
        ensures
            r == (Rect { color: Vector3D { x: 300, y: 300, z: 300 }, x, y, width, height }),
    {
        Rect { color: Vector3D { x: 300, y: 300, z: 300 }, x, y, width, height }
    }

    pub fn set_color(&mut self, new_color: Vector3D)
        ensures
            *final(self) == (Rect { color: new_color, ..*old(self) }),
    {
        self.color = new_color;
    }

    pub fn is_inside(&self, x: i64, y: i64) -> (r: bool)
        ensures
            r == rect_contains(*self, x as int, y as int),
    {
        let x1 = add_fx(self.x, self.width);
        let y1 = add_fx(self.y, self.height);
        x >= self.x && x <= x1 && y >= self.y && y <= y1
    }
}

pub struct Button {
    pub rect: Rect,
    pub is_taped: bool,
    pub taped_color: Vector3D,
    pub untaped_color: Vector3D,
    pub events_pool: Vec<ControllEvent>,
}

impl Button {
    pub fn new(x: i64, y: i64, width: i64, height: i64) -> (r: Button)
        ensures
            r.rect == (Rect {
                color: Vector3D { x: 300, y: 300, z: 300 },
                x,
                y,
                width,
                height,
            }),
            !r.is_taped,
            r.taped_color == (Vector3D { x: 1000, y: 0, z: 0 }),
            r.untaped_color == (Vector3D { x: 0, y: 1000, z: 0 }),
            r.events() == Seq::<ControllEvent>::empty(),
    {
        Button {
            rect: Rect::new(x, y, width, height),
            is_taped: false,
            taped_color: Vector3D { x: 1000, y: 0, z: 0 },
            untaped_color: Vector3D { x: 0, y: 1000, z: 0 },
            events_pool: Vec::new(),
        }
    }

    /// The events fired since the last drain.
    pub open spec fn events(&self) -> Seq<ControllEvent> {
        self.events_pool@
    }

    #[allow(non_snake_case)]
    pub fn set_taped_color(&mut self, new_color: Vector3D)
        ensures
            final(self).taped_color == new_color,
            final(self).rect == old(self).rect,
            final(self).is_taped == old(self).is_taped,
            final(self).untaped_color == old(self).untaped_color,
            final(self).events() == old(self).events(),
    {
        self.taped_color = new_color;
    }

    pub fn set_untaped_color(&mut self, new_color: Vector3D)
        ensures
            final(self).untaped_color == new_color,
            final(self).rect == old(self).rect,
            final(self).is_taped == old(self).is_taped,
            final(self).taped_color == old(self).taped_color,
            final(self).events() == old(self).events(),
    {
        self.untaped_color = new_color;
    }

    /// A press inside the rectangle latches the button and fires a click.
    pub fn tap(&mut self, x: i64, y: i64)
        ensures
            rect_contains(old(self).rect, x as int, y as int) ==> final(self).is_taped,
            rect_contains(old(self).rect, x as int, y as int) ==> final(self).events() == old(
                self,
            ).events().push(ControllEvent::Click),
            !rect_contains(old(self).rect, x as int, y as int) ==> *final(self) == *old(self),
            final(self).rect == old(self).rect,
            final(self).taped_color == old(self).taped_color,
            final(self).untaped_color == old(self).untaped_color,
    {
        if self.rect.is_inside(x, y) {
            self.is_taped = true;
            self.events_pool.push(ControllEvent::Click);
        }
    }

    pub fn untap(&mut self)
        ensures
            !final(self).is_taped,
            final(self).rect == old(self).rect,
            final(self).events() == old(self).events(),
            final(self).taped_color == old(self).taped_color,
            final(self).untaped_color == old(self).untaped_color,
    {
        self.is_taped = false;
    }

    /// Drain the queued events.
    pub fn get_events(&mut self) -> (r: Vec<ControllEvent>)
        ensures
            r@ == old(self).events(),
            final(self).events() == Seq::<ControllEvent>::empty(),
            final(self).rect == old(self).rect,
            final(self).is_taped == old(self).is_taped,
            final(self).taped_color == old(self).taped_color,
            final(self).untaped_color == old(self).untaped_color,
    {
        let tmp = self.events_pool.clone();
        self.events_pool = Vec::new();
        proof {
            assert(tmp@ =~= old(self).events());
        }
        tmp
    }
}

pub struct TrackBar {
    pub backrect: Rect,
    pub slider: Rect,
    pub is_taped: bool,
    pub value: i64,
    #[allow(non_snake_case)]
    pub minValue: i64,
    #[allow(non_snake_case)]
    pub maxValue: i64,
    pub events_pool: Vec<ControllEvent>,
}

/// The value a slider position denotes: the travelled fraction of the free
/// span, scaled into the value range.
pub open spec fn slider_value(
    min: int,
    max: int,
    back: Rect,
    slider_x: int,
    slider_w: int,
) -> int {
    fx_add(
        min,
        fx_mul(
            fx_div(
                fx_sub(slider_x, back.x as int),
                fx_sub(fx_add(back.x as int, fx_sub(back.width as int, slider_w)), back.x as int),
            ),
            fx_sub(max, min),
        ),
    )
}

impl TrackBar {
    pub fn new(x: i64, y: i64, width: i64, height: i64) -> (r: TrackBar)
        ensures
            r.backrect.x == x && r.backrect.y == y && r.backrect.width == width
                && r.backrect.height == height,
            r.backrect.color == (Vector3D { x: 0, y: 0, z: 0 }),
            r.slider.x == x && r.slider.y == y && r.slider.width as int == fx_mul(
                width as int,
                100,
            ) && r.slider.height == height,
            r.slider.color == (Vector3D { x: 700, y: 700, z: 700 }),
            !r.is_taped,
            r.value == 0,
            r.minValue == 0,
            r.maxValue == 100000,
            r.events() == Seq::<ControllEvent>::empty(),
    {
        let mut backrect = Rect::new(x, y, width, height);
        backrect.set_color(Vector3D { x: 0, y: 0, z: 0 });

        let mut slider = Rect::new(x, y, mul_fx(width, 100), height);
        slider.set_color(Vector3D { x: 700, y: 700, z: 700 });

        TrackBar {
            value: 0,
            backrect,
            slider,
            is_taped: false,
            events_pool: Vec::new(),
            minValue: 0,
            maxValue: 100000,
        }
    }

    /// The events fired since the last drain.
    pub open spec fn events(&self) -> Seq<ControllEvent> {
        self.events_pool@
    }

    /// A press on the slider latches the bar and fires a click.
    pub fn tap(&mut self, x: i64, y: i64)
        ensures
            rect_contains(old(self).slider, x as int, y as int) ==> final(self).is_taped,
            rect_contains(old(self).slider, x as int, y as int) ==> final(self).events() == old(
                self,
            ).events().push(ControllEvent::Click),
            !rect_contains(old(self).slider, x as int, y as int) ==> *final(self) == *old(self),
            final(self).backrect == old(self).backrect,
            final(self).slider == old(self).slider,
            final(self).value == old(self).value,
    {
        if self.slider.is_inside(x, y) {
            self.is_taped = true;
            self.events_pool.push(ControllEvent::Click);
        }
    }

    pub fn untap(&mut self)
        ensures
            !final(self).is_taped,
            final(self).backrect == old(self).backrect,
            final(self).slider == old(self).slider,
            final(self).value == old(self).value,
            final(self).events() == old(self).events(),
    {
        self.is_taped = false;
    }

    /// Drag the slider within the free span of the back rectangle and
    /// rescale the value accordingly; ignored while not latched.
    #[allow(non_snake_case)]
    pub fn moveTo(&mut self, x: i64, y: i64)
        requires
            old(self).slider.width < old(self).backrect.width,
            old(self).backrect.x < i64::MAX,
        ensures
            !old(self).is_taped ==> *final(self) == *old(self),
            old(self).is_taped ==> {
                let lo = old(self).backrect.x as int;
                let hi = fx_add(
                    old(self).backrect.x as int,
                    fx_sub(old(self).backrect.width as int, old(self).slider.width as int),
                );
                let sx = if x < lo {
                    lo
                } else if x > hi {
                    hi
                } else {
                    x as int
                };
                &&& final(self).slider == (Rect { x: sx as i64, ..old(self).slider })
                &&& final(self).value as int == slider_value(
                    old(self).minValue as int,
                    old(self).maxValue as int,
                    old(self).backrect,
                    sx,
                    old(self).slider.width as int,
                )
                &&& final(self).events() == old(self).events().push(ControllEvent::Changed)
                &&& final(self).backrect == old(self).backrect
                &&& final(self).is_taped
                &&& final(self).minValue == old(self).minValue
                &&& final(self).maxValue == old(self).maxValue
            },
    {
        if !self.is_taped {
            return ;
        }
        let _ = y;
        self.slider.x = x;
        if x < self.backrect.x {
            self.slider.x = self.backrect.x;
        }
        let hi = add_fx(self.backrect.x, sub_fx(self.backrect.width, self.slider.width));
        if x > hi {
            self.slider.x = hi;
        }
        let span = sub_fx(hi, self.backrect.x);
        proof {
            assert(span != 0);
        }
        self.value = add_fx(
            self.minValue,
            mul_fx(
                div_fx(sub_fx(self.slider.x, self.backrect.x), span),
                sub_fx(self.maxValue, self.minValue),
            ),
        );
        self.events_pool.push(ControllEvent::Changed);
    }

    /// Drain the queued events.
    pub fn get_events(&mut self) -> (r: Vec<ControllEvent>)
        ensures
            r@ == old(self).events(),
            final(self).events() == Seq::<ControllEvent>::empty(),
            final(self).backrect == old(self).backrect,
            final(self).slider == old(self).slider,
            final(self).is_taped == old(self).is_taped,
            final(self).value == old(self).value,
    {
        let tmp = self.events_pool.clone();
        self.events_pool = Vec::new();
        proof {
            assert(tmp@ =~= old(self).events());
        }
        tmp
    }

    #[allow(non_snake_case)]
    pub fn setValue(&mut self, value: i64)
        ensures
            final(self).value == value,
            final(self).backrect == old(self).backrect,
            final(self).slider == old(self).slider,
            final(self).is_taped == old(self).is_taped,
            final(self).events() == old(self).events(),
    {
        self.value = value;
    }

    #[allow(non_snake_case)]
    pub fn getValue(&self) -> (r: i64)
        ensures
            r == self.value,
    {
        self.value
    }
}

/// The overlay: one button that restores default colors, six track bars for
/// the ambient and light colors, and one button that commits them.  Each
/// widget has its own named field, so no positional index can go stale.
pub struct Interface {
    pub button_default: Button,
    pub background_r: TrackBar,
    pub background_g: TrackBar,
    pub background_b: TrackBar,
    pub light_r: TrackBar,
    pub light_g: TrackBar,
    pub light_b: TrackBar,
    pub button_save: Button,
    pub cursor: Point,
    #[allow(non_snake_case)]
    pub changedProp: ChangedProperties,
}

/// Every track bar keeps a slider strictly narrower than its back
/// rectangle, placed away from the numeric edge, so dragging is defined.
pub open spec fn bar_ok(t: &TrackBar) -> bool {
    t.slider.width < t.backrect.width && t.backrect.x < i64::MAX
}

pub open spec fn iface_wf(f: &Interface) -> bool {
    &&& bar_ok(&f.background_r)
    &&& bar_ok(&f.background_g)
    &&& bar_ok(&f.background_b)
    &&& bar_ok(&f.light_r)
    &&& bar_ok(&f.light_g)
    &&& bar_ok(&f.light_b)
}

impl Interface {
    pub fn new() -> (r: Interface)
        ensures
            iface_wf(&r),
            r.background_r.value == 50 && r.background_g.value == 50 && r.background_b.value
                == 50,
            r.light_r.value == 100_000 && r.light_g.value == 0 && r.light_b.value == 0,
            r.cursor == (Point { x: 0, y: 0 }),
            r.button_default.events() == Seq::<ControllEvent>::empty(),
            r.button_save.events() == Seq::<ControllEvent>::empty(),
    {
        let button_default = Button::new(20_000, 450_000, 60_000, 20_000);
        let mut background_r = TrackBar::new(10_000, 500_000, 60_000, 20_000);
        let mut background_g = TrackBar::new(80_000, 500_000, 60_000, 20_000);
        let mut background_b = TrackBar::new(150_000, 500_000, 60_000, 20_000);
        background_r.setValue(50);
        background_g.setValue(50);
        background_b.setValue(50);

        let mut light_r = TrackBar::new(10_000, 550_000, 60_000, 20_000);
        let mut light_g = TrackBar::new(80_000, 550_000, 60_000, 20_000);
        let mut light_b = TrackBar::new(150_000, 550_000, 60_000, 20_000);
        light_r.setValue(100_000);
        light_g.setValue(0);
        light_b.setValue(0);

        let button_save = Button::new(130_000, 450_000, 60_000, 20_000);

        Interface {
            button_default,
            background_r,
            background_g,
            background_b,
            light_r,
            light_g,
            light_b,
            button_save,
            cursor: Point { x: 0, y: 0 },
            changedProp: ChangedProperties::new(),
        }
    }

    /// Track the pointer (flipped to overlay coordinates) and steer any
    /// latched bars; presses latch, releases unlatch.
    #[allow(non_snake_case)]
    pub fn checkEvents(&mut self, event: &Event)
        requires
            iface_wf(old(self)),
        ensures
            iface_wf(final(self)),
            final(self).changedProp.backgroundLightColor == old(
                self,
            ).changedProp.backgroundLightColor,
            final(self).changedProp.lightColor == old(self).changedProp.lightColor,
            match *event {
                Event::MouseMoved(x, y) => final(self).cursor == (Point {
                    x,
                    y: fx_sub(600_000, y as int) as i64,
                }),
                _ => final(self).cursor == old(self).cursor,
            },
    {
        match *event {
            Event::MouseMoved(x, y) => {
                self.cursor = Point { x, y: sub_fx(600_000, y) };
                let cx = self.cursor.x;
                let cy = self.cursor.y;
                self.background_r.moveTo(cx, cy);
                self.background_g.moveTo(cx, cy);
                self.background_b.moveTo(cx, cy);
                self.light_r.moveTo(cx, cy);
                self.light_g.moveTo(cx, cy);
                self.light_b.moveTo(cx, cy);
            },
            Event::MouseInput(state, MouseButton::Left) => {
                match state {
                    ElementState::Pressed => {
                        let cx = self.cursor.x;
                        let cy = self.cursor.y;
                        self.button_default.tap(cx, cy);
                        self.background_r.tap(cx, cy);
                        self.background_g.tap(cx, cy);
                        self.background_b.tap(cx, cy);
                        self.light_r.tap(cx, cy);
                        self.light_g.tap(cx, cy);
                        self.light_b.tap(cx, cy);
                        self.button_save.tap(cx, cy);
                    },
                    ElementState::Released => {
                        self.button_default.untap();
                        self.background_r.untap();
                        self.background_g.untap();
                        self.background_b.untap();
                        self.light_r.untap();
                        self.light_g.untap();
                        self.light_b.untap();
                        self.button_save.untap();
                    },
                }
            },
            _ => {},
        }
    }

    /// Restore every bar to its default value.
    #[allow(non_snake_case)]
    pub fn OnClickDefault(&mut self)
        ensures
            final(self).background_r.value == 500,
            final(self).background_g.value == 500,
            final(self).background_b.value == 500,
            final(self).light_r.value == 100_000,
            final(self).light_g.value == 0,
            final(self).light_b.value == 0,
            final(self).changedProp.backgroundLightColor == old(
                self,
            ).changedProp.backgroundLightColor,
            final(self).changedProp.lightColor == old(self).changedProp.lightColor,
            final(self).button_default == old(self).button_default,
            final(self).button_save == old(self).button_save,
            final(self).cursor == old(self).cursor,
            iface_wf(old(self)) ==> iface_wf(final(self)),
    {
        self.background_r.setValue(500);
        self.background_g.setValue(500);
        self.background_b.setValue(500);
        self.light_r.setValue(100_000);
        self.light_g.setValue(0);
        self.light_b.setValue(0);
    }

    /// Commit the bar values, rescaled from the 0..100 range, as the
    /// pending ambient and light colors.
    #[allow(non_snake_case)]
    pub fn OnClickSave(&mut self)
        ensures
            final(self).changedProp.backgroundLightColor == (Vector3D {
                x: fx_div(old(self).background_r.value as int, 100_000) as i64,
                y: fx_div(old(self).background_g.value as int, 100_000) as i64,
                z: fx_div(old(self).background_b.value as int, 100_000) as i64,
            }),
            final(self).changedProp.lightColor == (Vector3D {
                x: fx_div(old(self).light_r.value as int, 100_000) as i64,
                y: fx_div(old(self).light_g.value as int, 100_000) as i64,
                z: fx_div(old(self).light_b.value as int, 100_000) as i64,
            }),
            final(self).background_r == old(self).background_r,
            final(self).background_g == old(self).background_g,
            final(self).background_b == old(self).background_b,
            final(self).light_r == old(self).light_r,
            final(self).light_g == old(self).light_g,
            final(self).light_b == old(self).light_b,
            final(self).button_default == old(self).button_default,
            final(self).button_save == old(self).button_save,
            final(self).cursor == old(self).cursor,
            iface_wf(old(self)) ==> iface_wf(final(self)),
    {
        self.changedProp.backgroundLightColor = Vector3D {
            x: div_fx(self.background_r.getValue(), 100_000),
            y: div_fx(self.background_g.getValue(), 100_000),
            z: div_fx(self.background_b.getValue(), 100_000),
        };
        self.changedProp.lightColor = Vector3D {
            x: div_fx(self.light_r.getValue(), 100_000),
            y: div_fx(self.light_g.getValue(), 100_000),
            z: div_fx(self.light_b.getValue(), 100_000),
        };
    }

    /// Drain both buttons and run the click they may have fired: reset
    /// first, then commit.
    pub fn update(&mut self)
        requires
            iface_wf(old(self)),
        ensures
            iface_wf(final(self)),
            final(self).button_default.events() == Seq::<ControllEvent>::empty(),
            final(self).button_save.events() == Seq::<ControllEvent>::empty(),
    {
        let default_events = self.button_default.get_events();
        let mut clicked_default = false;
        let mut k: usize = 0;
        while k < default_events.len()
            invariant
                iface_wf(self),
                self.button_default.events() == Seq::<ControllEvent>::empty(),
                self.button_save.events() == old(self).button_save.events(),
            decreases default_events@.len() - k,
        {
            if default_events[k] == ControllEvent::Click && !clicked_default {
                self.OnClickDefault();
                clicked_default = true;
            }
            k += 1;
        }

        let save_events = self.button_save.get_events();
        let mut clicked_save = false;
        let mut k: usize = 0;
        while k < save_events.len()
            invariant
                iface_wf(self),
                self.button_default.events() == Seq::<ControllEvent>::empty(),
                self.button_save.events() == Seq::<ControllEvent>::empty(),
            decreases save_events@.len() - k,
        {
            if save_events[k] == ControllEvent::Click && !clicked_save {
                self.OnClickSave();
                clicked_save = true;
            }
            k += 1;
        }
    }
}


} // verus!
