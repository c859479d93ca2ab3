//! The decisions of the joystick controller on each turn of its loop.
//!
//! While no platform has answered, the controller blinks its LED and broadcasts pings.
//! Once a pong arrives it is connected for good and sends a move packet whenever the
//! stick moved noticeably or the drive mode changed. A press of the joystick button
//! toggles the drive mode; presses within the debounce time of the last toggle are
//! ignored, and a mode change is sent several times since broadcasts are not
//! acknowledged.
use vstd::prelude::*;
use crate::protocol::{DriveMode, MessageType, MoveCommand, message_kind, packet_kind};
use crate::joystick::{adc_to_joystick, can_scale, joystick_defined, joystick_value};

verus! {

/// After a toggle, further presses are ignored for this long (milliseconds).
pub const DEBOUNCE_MS: u64 = 250;

/// How many times a change of drive mode is sent.
pub const MODE_RESENDS: u8 = 3;

/// A stick axis has to move by more than this before a new move packet is sent.
pub const MOVE_THRESHOLD: i32 = 5;

/// What the controller remembers between turns of its loop.
#[derive(Clone, Copy, Debug, PartialEq, Eq)]
pub struct ControllerState {
    /// A platform has answered a ping.
    pub connected: bool,
    /// Blink phase of the status LED while searching.
    pub blink_on: bool,
    /// The last move command sent.
    pub last_sent: MoveCommand,
    /// The current drive mode.
    pub mode: DriveMode,
    /// Whether the button was down on the previous turn.
    pub button_was_down: bool,
    /// When the drive mode was last toggled (milliseconds), if ever.
    pub last_toggle_ms: Option<u64>,
    /// How many more times the current mode is to be sent regardless of stick movement.
    pub mode_resends: u8,
    /// Resting reading of the x axis (millivolts).
    pub x_center: u16,
    /// Resting reading of the y axis (millivolts).
    pub y_center: u16,
}

/// What the controller reads on one turn of its loop.
#[derive(Clone, Copy, Debug, PartialEq, Eq, Structural)]
pub struct ControllerInput {
    /// The joystick button is pressed (the pin reads low).
    pub button_down: bool,
    /// Time of the turn in milliseconds.
    pub now_ms: u64,
    /// Calibrated x reading (millivolts).
    pub x_mv: u16,
    /// Calibrated y reading (millivolts).
    pub y_mv: u16,
}

/// What the controller broadcasts on one turn.
#[derive(Clone, Copy, Debug, PartialEq, Eq, Structural)]
pub enum Outgoing {
    /// Broadcast a ping, with the status LED set to `led_on`.
    Ping { led_on: bool },
    /// Broadcast this move command.
    Move(MoveCommand),
    /// Send nothing.
    Nothing,
}

/// The controller's decisions on one turn.
#[derive(Clone, Copy, Debug, PartialEq, Eq, Structural)]
pub struct ControllerAction {
    /// The drive mode was toggled on this turn.
    pub mode_changed: bool,
    pub send: Outgoing,
}

/// `|a - b| > MOVE_THRESHOLD`.
pub open spec fn moved_noticeably(a: int, b: int) -> bool {
    a - b > MOVE_THRESHOLD || b - a > MOVE_THRESHOLD
}

impl ControllerState {
    /// A controller that has just calibrated its stick and not yet found a platform.
    pub open spec fn initial(x_center: u16, y_center: u16) -> ControllerState {
        ControllerState {
            connected: false,
            blink_on: false,
            last_sent: MoveCommand { x: 0, y: 0, mode: DriveMode::Strafe },
            mode: DriveMode::Strafe,
            button_was_down: false,
            last_toggle_ms: None,
            mode_resends: 0,
            x_center,
            y_center,
        }
    }

    /// Whether a turn with these readings can be taken: when connected, both axes are
    /// scaled against their resting values.
    pub open spec fn accepts(self, i: ControllerInput) -> bool {
        self.connected ==> joystick_defined(i.x_mv, self.x_center) && joystick_defined(
            i.y_mv,
            self.y_center,
        )
    }

    /// Whether this turn's button reading toggles the mode: a press that was not down
    /// on the last turn, outside the debounce time of the last toggle.
    pub open spec fn press_accepted(self, i: ControllerInput) -> bool {
        &&& i.button_down
        &&& !self.button_was_down
        &&& match self.last_toggle_ms {
            Some(t) => i.now_ms >= t + DEBOUNCE_MS,
            None => true,
        }
    }

    /// State after the button is read on this turn.
    pub open spec fn after_button(self, i: ControllerInput) -> ControllerState {
        if self.press_accepted(i) {
            ControllerState {
                mode: self.mode.other(),
                last_toggle_ms: Some(i.now_ms),
                mode_resends: MODE_RESENDS,
                button_was_down: i.button_down,
                ..self
            }
        } else {
            ControllerState { button_was_down: i.button_down, ..self }
        }
    }

    /// The move command for this turn's readings.
    pub open spec fn command_for(self, i: ControllerInput) -> MoveCommand {
        MoveCommand {
            x: joystick_value(i.x_mv, self.x_center) as i16,
            y: joystick_value(i.y_mv, self.y_center) as i16,
            mode: self.mode,
        }
    }

    /// Whether a command is to be sent: the stick moved noticeably on either axis since
    /// the last command sent, the mode differs from it, or resends are pending.
    pub open spec fn should_send(self, c: MoveCommand) -> bool {
        ||| moved_noticeably(c.x as int, self.last_sent.x as int)
        ||| moved_noticeably(c.y as int, self.last_sent.y as int)
        ||| c.mode != self.last_sent.mode
        ||| self.mode_resends > 0
    }

    /// One turn of the controller loop: the new state and what to do.
    pub open spec fn step(self, i: ControllerInput) -> (ControllerState, ControllerAction) {
        let s = self.after_button(i);
        let mode_changed = self.press_accepted(i);
        if !s.connected {
            (
                ControllerState { blink_on: !s.blink_on, ..s },
                ControllerAction { mode_changed, send: Outgoing::Ping { led_on: !s.blink_on } },
            )
        } else {
            let c = s.command_for(i);
            if s.should_send(c) {
                (
                    ControllerState {
                        last_sent: c,
                        mode_resends: if s.mode_resends > 0 {
                            (s.mode_resends - 1) as u8
                        } else {
                            0
                        },
                        ..s
                    },
                    ControllerAction { mode_changed, send: Outgoing::Move(c) },
                )
            } else {
                (s, ControllerAction { mode_changed, send: Outgoing::Nothing })
            }
        }
    }

    /// State after a packet arrives: a pong connects the controller (and the LED stays on).
    pub open spec fn receive(self, data: Seq<u8>) -> ControllerState {
        if packet_kind(data) == Some(MessageType::Pong) && !self.connected {
            ControllerState { connected: true, blink_on: true, ..self }
        } else {
            self
        }
    }

    /// A controller with the given resting readings, searching for a platform.
    pub fn new(x_center: u16, y_center: u16) -> (s: Self)
        ensures
            s == ControllerState::initial(x_center, y_center),
    {
        ControllerState {
            connected: false,
            blink_on: false,
            last_sent: MoveCommand::default(),
            mode: DriveMode::default(),
            button_was_down: false,
            last_toggle_ms: None,
            mode_resends: 0,
            x_center,
            y_center,
        }
    }

    /// Whether a turn with these readings can be taken (see `accepts`).
    pub fn accepts_input(&self, i: ControllerInput) -> (r: bool)
        ensures
            r == self.accepts(i),
    {
        !self.connected || (can_scale(i.x_mv, self.x_center) && can_scale(i.y_mv, self.y_center))
    }

    /// Takes one turn of the controller loop.
    pub fn tick(&mut self, i: ControllerInput) -> (r: ControllerAction)
        requires
            old(self).accepts(i),
        ensures
            (*final(self), r) == old(self).step(i),
    {
        let ghost s0 = *self;
        let debounced = match self.last_toggle_ms {
            Some(t) => i.now_ms >= t && i.now_ms - t >= DEBOUNCE_MS,
            None => true,
        };
        let mode_changed = i.button_down && !self.button_was_down && debounced;
        if mode_changed {
            self.mode = self.mode.toggled();
            self.last_toggle_ms = Some(i.now_ms);
            self.mode_resends = MODE_RESENDS;
        }
        self.button_was_down = i.button_down;
        assert(*self == s0.after_button(i));
        if !self.connected {
            self.blink_on = !self.blink_on;
            ControllerAction { mode_changed, send: Outgoing::Ping { led_on: self.blink_on } }
        } else {
            let x = adc_to_joystick(i.x_mv, self.x_center);
            let y = adc_to_joystick(i.y_mv, self.y_center);
            let cmd = MoveCommand { x, y, mode: self.mode };
            let dx: i32 = x as i32 - self.last_sent.x as i32;
            let dy: i32 = y as i32 - self.last_sent.y as i32;
            let send = dx > MOVE_THRESHOLD || dx < -MOVE_THRESHOLD || dy > MOVE_THRESHOLD || dy
                < -MOVE_THRESHOLD || cmd.mode != self.last_sent.mode || self.mode_resends > 0;
            if send {
                self.last_sent = cmd;
                if self.mode_resends > 0 {
                    self.mode_resends = self.mode_resends - 1;
                }
                ControllerAction { mode_changed, send: Outgoing::Move(cmd) }
            } else {
                ControllerAction { mode_changed, send: Outgoing::Nothing }
            }
        }
    }

    /// Handles a received packet; returns whether it connected the controller just now,
    /// in which case the status LED goes solid on.
    pub fn on_message(&mut self, data: &[u8]) -> (connected_now: bool)
        ensures
            *final(self) == old(self).receive(data@),
            connected_now == (packet_kind(data@) == Some(MessageType::Pong) && !old(self).connected),
    {
        match message_kind(data) {
            Some(MessageType::Pong) => {
                if !self.connected {
                    self.connected = true;
                    self.blink_on = true;
                    true
                } else {
                    false
                }
            },
            _ => false,
        }
    }
}

/// Once connected, the controller stays connected, whatever it reads or receives.
pub proof fn lemma_connection_sticks(s: ControllerState, i: ControllerInput, data: Seq<u8>)
    requires
        s.connected,
    ensures
        s.step(i).0.connected,
        s.receive(data).connected,
        s.step(i).0.x_center == s.x_center && s.step(i).0.y_center == s.y_center,
{
}

/// While searching, every turn broadcasts a ping and flips the LED.
pub proof fn lemma_searching_pings(s: ControllerState, i: ControllerInput)
    requires
        !s.connected,
    ensures
        s.step(i).1.send == (Outgoing::Ping { led_on: !s.blink_on }),
        s.step(i).0.blink_on == !s.blink_on,
        !s.step(i).0.connected,
{
}

/// The mode changes only on a press that was not already down, at least the debounce
/// time after the previous toggle; a toggle records its time and schedules the resends.
pub proof fn lemma_mode_toggle(s: ControllerState, i: ControllerInput)
    ensures
        s.step(i).0.mode != s.mode <==> s.step(i).1.mode_changed,
        s.step(i).1.mode_changed ==> {
            &&& i.button_down
            &&& !s.button_was_down
            &&& s.step(i).0.mode == s.mode.other()
            &&& s.step(i).0.last_toggle_ms == Some(i.now_ms)
            &&& (s.last_toggle_ms matches Some(t) ==> i.now_ms >= t + DEBOUNCE_MS)
        },
        !s.step(i).1.mode_changed ==> s.step(i).0.last_toggle_ms == s.last_toggle_ms,
        s.step(i).0.button_was_down == i.button_down,
{
}

/// State after a run of turns.
pub open spec fn run(s: ControllerState, inputs: Seq<ControllerInput>) -> ControllerState
    decreases inputs.len(),
{
    if inputs.len() == 0 {
        s
    } else {
        run(s, inputs.drop_last()).step(inputs.last()).0
    }
}

/// Whether turn `k` of a run toggles the drive mode.
pub open spec fn toggles_at(s: ControllerState, inputs: Seq<ControllerInput>, k: int) -> bool {
    run(s, inputs.take(k)).press_accepted(inputs[k])
}

proof fn lemma_run_step(s: ControllerState, inputs: Seq<ControllerInput>, m: int)
    requires
        0 <= m < inputs.len(),
    ensures
        run(s, inputs.take(m + 1)) == run(s, inputs.take(m)).step(inputs[m]).0,
{
    assert(inputs.take(m + 1).drop_last() =~= inputs.take(m));
}

proof fn lemma_toggle_time_kept(s: ControllerState, inputs: Seq<ControllerInput>, j: int, m: int)
    requires
        0 <= j < m <= inputs.len(),
        toggles_at(s, inputs, j),
    ensures
        run(s, inputs.take(m)).last_toggle_ms matches Some(t) && t >= inputs[j].now_ms,
    decreases m - j,
{
    if m == j + 1 {
        lemma_run_step(s, inputs, j);
    } else {
        lemma_toggle_time_kept(s, inputs, j, m - 1);
        lemma_run_step(s, inputs, m - 1);
    }
}

/// Over any run of turns, two toggles of the drive mode are at least the debounce time
/// apart.
pub proof fn lemma_debounce(s: ControllerState, inputs: Seq<ControllerInput>, j: int, k: int)
    requires
        0 <= j < k < inputs.len(),
        toggles_at(s, inputs, j),
        toggles_at(s, inputs, k),
    ensures
        inputs[k].now_ms >= inputs[j].now_ms + DEBOUNCE_MS,
{
    lemma_toggle_time_kept(s, inputs, j, k);
}

/// A connected turn that toggles the mode sends the new mode at once, and the mode is
/// sent again on each following connected turn while resends are pending.
pub proof fn lemma_mode_change_sent(s: ControllerState, i: ControllerInput)
    requires
        s.connected,
    ensures
        s.step(i).1.mode_changed ==> s.step(i).1.send == Outgoing::Move(s.after_button(i).command_for(i))
            && s.step(i).0.mode_resends == MODE_RESENDS - 1,
        s.mode_resends > 0 && !s.step(i).1.mode_changed ==> s.step(i).1.send is Move
            && s.step(i).0.mode_resends == s.mode_resends - 1,
        s.step(i).1.send matches Outgoing::Move(c) ==> c.mode == s.step(i).0.mode
            && s.step(i).0.last_sent == c,
{
}

/// A connected controller with no resends pending stays quiet while the stick stays
/// within the threshold of the last command and the mode does not change.
pub proof fn lemma_quiet_when_still(s: ControllerState, i: ControllerInput)
    requires
        s.connected,
        s.mode_resends == 0,
        !s.press_accepted(i),
        s.last_sent.mode == s.mode,
        !moved_noticeably(joystick_value(i.x_mv, s.x_center), s.last_sent.x as int),
        !moved_noticeably(joystick_value(i.y_mv, s.y_center), s.last_sent.y as int),
        s.accepts(i),
    ensures
        s.step(i).1.send == Outgoing::Nothing,
        s.step(i).0 == (ControllerState { button_was_down: i.button_down, ..s }),
{
    crate::joystick::lemma_joystick_range(i.x_mv, s.x_center);
    crate::joystick::lemma_joystick_range(i.y_mv, s.y_center);
}

/// A connected turn sends a move as soon as either axis has moved by more than the
/// threshold, up or down, since the last command sent; the move carries the stick
/// position read on this turn and the current mode. Any move that is sent carries this
/// turn's position.
pub proof fn lemma_move_sent_when_stick_moves(s: ControllerState, i: ControllerInput)
    requires
        s.connected,
        s.accepts(i),
    ensures
        ({
            let x = joystick_value(i.x_mv, s.x_center);
            let y = joystick_value(i.y_mv, s.y_center);
            let (s1, a) = s.step(i);
            &&& (x - s.last_sent.x > MOVE_THRESHOLD || s.last_sent.x - x > MOVE_THRESHOLD || y
                - s.last_sent.y > MOVE_THRESHOLD || s.last_sent.y - y > MOVE_THRESHOLD) ==> a.send
                == Outgoing::Move(MoveCommand { x: x as i16, y: y as i16, mode: s1.mode })
            &&& a.send matches Outgoing::Move(c) ==> c.x == x && c.y == y && c.mode == s1.mode
                && s1.last_sent == c
            &&& !(a.send is Ping)
        }),
{
    crate::joystick::lemma_joystick_range(i.x_mv, s.x_center);
    crate::joystick::lemma_joystick_range(i.y_mv, s.y_center);
}

/// A connected turn sends nothing exactly when neither axis moved by more than the
/// threshold since the last command sent, the mode is unchanged on this turn and is
/// that of the last command sent, and no resends are pending.
pub proof fn lemma_move_sent_iff(s: ControllerState, i: ControllerInput)
    requires
        s.connected,
        s.accepts(i),
    ensures
        ({
            let x = joystick_value(i.x_mv, s.x_center);
            let y = joystick_value(i.y_mv, s.y_center);
            let (s1, a) = s.step(i);
            let still = -MOVE_THRESHOLD <= x - s.last_sent.x <= MOVE_THRESHOLD && -MOVE_THRESHOLD
                <= y - s.last_sent.y <= MOVE_THRESHOLD;
            (a.send == Outgoing::Nothing) <==> (still && s1.mode == s.last_sent.mode
                && !a.mode_changed && s.mode_resends == 0)
        }),
{
    crate::joystick::lemma_joystick_range(i.x_mv, s.x_center);
    crate::joystick::lemma_joystick_range(i.y_mv, s.y_center);
}

/// A fresh press of the button (down now, up on the previous turn) with no toggle yet,
/// or at least the debounce time after the last toggle, always switches the mode,
/// whatever the stick reads, the connection, and the last command sent.
pub proof fn lemma_press_toggles(s: ControllerState, i: ControllerInput)
    requires
        i.button_down,
        !s.button_was_down,
        match s.last_toggle_ms {
            Some(t) => i.now_ms >= t + DEBOUNCE_MS,
            None => true,
        },
    ensures
        s.step(i).0.mode == s.mode.other(),
        s.step(i).1.mode_changed,
        s.step(i).0.last_toggle_ms == Some(i.now_ms),
        s.connected ==> s.step(i).1.send is Move,
{
}

/// Without a fresh press outside the debounce time the mode stays as it is.
pub proof fn lemma_no_press_keeps_mode(s: ControllerState, i: ControllerInput)
    requires
        !i.button_down || s.button_was_down || (s.last_toggle_ms matches Some(t) && i.now_ms < t
            + DEBOUNCE_MS),
    ensures
        s.step(i).0.mode == s.mode,
        !s.step(i).1.mode_changed,
{
}

/// A packet connects the controller exactly when it starts with the pong byte; a
/// connection is never lost, and nothing else about the controller changes except that
/// the status LED goes on.
pub proof fn lemma_pong_connects(s: ControllerState, data: Seq<u8>)
    ensures
        s.receive(data).connected == (s.connected || (data.len() > 0 && data[0] == 0x02)),
        s.receive(data).mode == s.mode,
        s.receive(data).last_sent == s.last_sent,
        s.receive(data).mode_resends == s.mode_resends,
        s.receive(data).last_toggle_ms == s.last_toggle_ms,
        s.receive(data).button_was_down == s.button_was_down,
{
}

/// Every move command a connected controller sends has both axes in -100..=100.
pub proof fn lemma_sent_in_range(s: ControllerState, i: ControllerInput)
    requires
        s.accepts(i),
    ensures
        s.step(i).1.send matches Outgoing::Move(c) ==> -100 <= c.x <= 100 && -100 <= c.y <= 100,
{
    if s.connected {
        crate::joystick::lemma_joystick_range(i.x_mv, s.x_center);
        crate::joystick::lemma_joystick_range(i.y_mv, s.y_center);
    }
}

} // verus!
