//! Routing of native window notifications: the per-window handler that emits
//! application events, the synthesized clipboard shortcuts, and the state
//! machine that owns the handler from attachment to window teardown.

use vstd::prelude::*;

use crate::events::{Event, MenuId, MenuType, WindowId};
use crate::menu::{CLOSE_ID, COPY_ID, CUT_ID, HIDE_ID, MINIMIZE_ID, PASTE_ID, QUIT_ID, SELECT_ALL_ID};
use crate::registry::IdRegistry;

verus! {

/// The virtual-key code of the control key, used by the synthesized
/// clipboard shortcuts.
pub const VK_CONTROL: u16 = 0x11;

/// Per-window dispatch state: where emitted events carry the menu's origin
/// and the owning window's identifier, and the queue of events emitted so
/// far and not yet drained.
pub struct MenuHandler {
    /// The owning window's identifier, echoed in every menu event.
    pub window_id: Option<WindowId>,
    /// The logical origin of the menu.
    pub menu_type: MenuType,
    /// Events emitted and not yet handed to the application.
    pub pending: Vec<Event>,
}

impl MenuHandler {
    /// A handler with an empty event queue.
    pub fn new(menu_type: MenuType, window_id: Option<WindowId>) -> (r: MenuHandler)
        ensures
            r.menu_type == menu_type,
            r.window_id == window_id,
            r.pending@.len() == 0,
    {
        MenuHandler { window_id, menu_type, pending: Vec::new() }
    }

    /// Emit the generic menu-selected event for the custom item `menu_id`.
    pub fn send_menu_event(&mut self, menu_id: u16)
        ensures
            final(self).pending@ == old(self).pending@.push(
                Event::MenuEvent {
                    menu_id: MenuId(menu_id),
                    origin: old(self).menu_type,
                    window_id: old(self).window_id,
                },
            ),
            final(self).menu_type == old(self).menu_type,
            final(self).window_id == old(self).window_id,
    {
        let origin = self.menu_type;
        let window_id = self.window_id;
        self.pending.push(Event::MenuEvent { menu_id: MenuId(menu_id), origin, window_id });
    }

    /// Emit `event` as it stands.
    pub fn send_event(&mut self, event: Event)
        ensures
            final(self).pending@ == old(self).pending@.push(event),
            final(self).menu_type == old(self).menu_type,
            final(self).window_id == old(self).window_id,
    {
        self.pending.push(event);
    }

    /// Hand the queued events to the application, emptying the queue.
    pub fn take_events(&mut self) -> (r: Vec<Event>)
        ensures
            r@ == old(self).pending@,
            final(self).pending@.len() == 0,
            final(self).menu_type == old(self).menu_type,
            final(self).window_id == old(self).window_id,
    {
        let mut drained: Vec<Event> = Vec::new();
        core::mem::swap(&mut drained, &mut self.pending);
        drained
    }
}

/// The clipboard-style commands executed by synthesizing a keyboard
/// shortcut.
#[derive(Clone, Copy, Debug, PartialEq, Eq, Structural)]
pub enum EditCommand {
    Cut,
    Copy,
    Paste,
    SelectAll,
}

/// One synthetic keyboard event: a virtual-key code, pressed or released.
#[derive(Clone, Copy, Debug, PartialEq, Eq, Structural)]
pub struct SynthInput {
    pub vk: u16,
    pub key_up: bool,
}

/// The virtual-key code an edit command's shortcut presses together with
/// control.
pub open spec fn edit_key(cmd: EditCommand) -> u16 {
    match cmd {
        EditCommand::Copy => 0x43u16,
        EditCommand::Cut => 0x58u16,
        EditCommand::Paste => 0x56u16,
        EditCommand::SelectAll => 0x41u16,
    }
}

/// The exact four-event shortcut for an edit command: control down, key
/// down, key up, control up. The order must be preserved; reordering can
/// leave the receiving control with a stuck modifier.
pub open spec fn synth_sequence(cmd: EditCommand) -> Seq<SynthInput> {
    seq![
        SynthInput { vk: VK_CONTROL, key_up: false },
        SynthInput { vk: edit_key(cmd), key_up: false },
        SynthInput { vk: edit_key(cmd), key_up: true },
        SynthInput { vk: VK_CONTROL, key_up: true },
    ]
}

/// The synthetic input events that execute an edit command, in the exact
/// order they must be injected.
pub fn edit_command_inputs(command: EditCommand) -> (r: Vec<SynthInput>)
    ensures
        r@ == synth_sequence(command),
{
    let key: u16 = match command {
        EditCommand::Copy => 0x43,
        EditCommand::Cut => 0x58,
        EditCommand::Paste => 0x56,
        EditCommand::SelectAll => 0x41,
    };
    let mut inputs: Vec<SynthInput> = Vec::new();
    inputs.push(SynthInput { vk: VK_CONTROL, key_up: false });
    inputs.push(SynthInput { vk: key, key_up: false });
    inputs.push(SynthInput { vk: key, key_up: true });
    inputs.push(SynthInput { vk: VK_CONTROL, key_up: true });
    assert(inputs@ =~= synth_sequence(command));
    inputs
}

/// The native action the embedder must carry out after a command was
/// dispatched.
pub enum NativeAction {
    /// Inject the given synthetic input events, in order.
    SynthesizeInput(Vec<SynthInput>),
    /// Hide the window.
    HideWindow,
    /// Minimize the window.
    MinimizeWindow,
    /// Nothing to do beyond the events already emitted.
    Idle,
}

/// How dispatching the command `wparam` relates the handler's state before
/// and after, and the action returned: the eight reserved identifiers first,
/// then the low 16 bits against the identifier registry, and silence for
/// everything else.
pub open spec fn command_dispatched(
    pre: MenuHandler,
    post: MenuHandler,
    registry: IdRegistry,
    window: WindowId,
    wparam: usize,
    action: NativeAction,
) -> bool {
    &&& post.menu_type == pre.menu_type
    &&& post.window_id == pre.window_id
    &&& wparam == CUT_ID as usize ==> post.pending@ == pre.pending@ && (
    action matches NativeAction::SynthesizeInput(v) && v@ == synth_sequence(EditCommand::Cut))
    &&& wparam == COPY_ID as usize ==> post.pending@ == pre.pending@ && (
    action matches NativeAction::SynthesizeInput(v) && v@ == synth_sequence(EditCommand::Copy))
    &&& wparam == PASTE_ID as usize ==> post.pending@ == pre.pending@ && (
    action matches NativeAction::SynthesizeInput(v) && v@ == synth_sequence(EditCommand::Paste))
    &&& wparam == SELECT_ALL_ID as usize ==> post.pending@ == pre.pending@ && (
    action matches NativeAction::SynthesizeInput(v) && v@ == synth_sequence(
        EditCommand::SelectAll,
    ))
    &&& wparam == HIDE_ID as usize ==> post.pending@ == pre.pending@ && action
        is HideWindow
    &&& wparam == MINIMIZE_ID as usize ==> post.pending@ == pre.pending@ && action
        is MinimizeWindow
    &&& wparam == CLOSE_ID as usize ==> post.pending@ == pre.pending@.push(
        Event::CloseRequested { window_id: window },
    ) && action is Idle
    &&& wparam == QUIT_ID as usize ==> post.pending@ == pre.pending@.push(
        Event::LoopDestroyed,
    ) && action is Idle
    &&& !reserved_wparam(wparam) ==> action is Idle && (if registry.ids().contains(
        (wparam & 0xffff) as u16,
    ) {
        post.pending@ == pre.pending@.push(
            Event::MenuEvent {
                menu_id: MenuId((wparam & 0xffff) as u16),
                origin: pre.menu_type,
                window_id: pre.window_id,
            },
        )
    } else {
        post.pending@ == pre.pending@
    })
}

/// Whether a command parameter matches one of the eight reserved built-in
/// identifiers exactly.
pub open spec fn reserved_wparam(wparam: usize) -> bool {
    ||| wparam == CUT_ID as usize
    ||| wparam == COPY_ID as usize
    ||| wparam == PASTE_ID as usize
    ||| wparam == SELECT_ALL_ID as usize
    ||| wparam == HIDE_ID as usize
    ||| wparam == MINIMIZE_ID as usize
    ||| wparam == CLOSE_ID as usize
    ||| wparam == QUIT_ID as usize
}

/// Dispatch one command notification. The reserved built-in identifiers are
/// matched exactly, in a fixed block: the clipboard commands return the
/// synthesized shortcut to inject, hide and minimize return the window
/// action, close emits a close-requested event for `window`, and quit emits
/// exactly one loop-termination event and performs no other action. Any
/// other parameter is reduced to its low 16 bits and, if that identifier was
/// registered, the generic menu event is emitted; otherwise nothing happens,
/// which is correct behavior, not an error, since the host stream carries
/// identifiers this subsystem does not own.
pub fn dispatch_command(
    handler: &mut MenuHandler,
    registry: &IdRegistry,
    window: WindowId,
    wparam: usize,
) -> (action: NativeAction)
    ensures
        command_dispatched(*old(handler), *final(handler), *registry, window, wparam, action),
{
    if wparam == CUT_ID as usize {
        NativeAction::SynthesizeInput(edit_command_inputs(EditCommand::Cut))
    } else if wparam == COPY_ID as usize {
        NativeAction::SynthesizeInput(edit_command_inputs(EditCommand::Copy))
    } else if wparam == PASTE_ID as usize {
        NativeAction::SynthesizeInput(edit_command_inputs(EditCommand::Paste))
    } else if wparam == SELECT_ALL_ID as usize {
        NativeAction::SynthesizeInput(edit_command_inputs(EditCommand::SelectAll))
    } else if wparam == HIDE_ID as usize {
        NativeAction::HideWindow
    } else if wparam == MINIMIZE_ID as usize {
        NativeAction::MinimizeWindow
    } else if wparam == CLOSE_ID as usize {
        handler.send_event(Event::CloseRequested { window_id: window });
        NativeAction::Idle
    } else if wparam == QUIT_ID as usize {
        handler.send_event(Event::LoopDestroyed);
        NativeAction::Idle
    } else {
        let menu_id: u16 = (wparam & 0xffff) as u16;
        if registry.contains(menu_id) {
            handler.send_menu_event(menu_id);
        }
        NativeAction::Idle
    }
}

/// The messages the router distinguishes: window teardown, a command
/// notification carrying its parameter, and everything else, which is
/// forwarded unchanged.
#[derive(Clone, Copy, Debug, PartialEq, Eq, Structural)]
pub enum WindowMessage {
    Destroy,
    Command(usize),
    Other,
}

/// What the embedder does with the message after dispatch: treat it as
/// handled, or forward it to the default host handler.
#[derive(Clone, Copy, Debug, PartialEq, Eq, Structural)]
pub enum MessageOutcome {
    Handled,
    ForwardDefault,
}

/// The dispatch state attached to a window: it owns the handler from
/// attachment until the single teardown notification reclaims it. Holding
/// the handler in an option ties reclamation to that one transition, so a
/// double reclaim is prevented by construction.
pub struct WindowDispatch {
    handler: Option<MenuHandler>,
}

impl WindowDispatch {
    /// Whether the handler is still installed.
    pub closed spec fn attached(self) -> bool {
        self.handler is Some
    }

    /// The installed handler's state.
    pub closed spec fn handler_state(self) -> MenuHandler
        recommends
            self.attached(),
    {
        self.handler->Some_0
    }

    /// Install `handler`: the window enters the attached state.
    pub fn attach(handler: MenuHandler) -> (r: WindowDispatch)
        ensures
            r.attached(),
            r.handler_state() == handler,
    {
        WindowDispatch { handler: Some(handler) }
    }

    /// Whether the handler is still installed.
    pub fn is_attached(&self) -> (r: bool)
        ensures
            r == self.attached(),
    {
        self.handler.is_some()
    }

    /// Drain the events the installed handler has queued; empty after
    /// teardown.
    pub fn take_events(&mut self) -> (r: Vec<Event>)
        ensures
            final(self).attached() == old(self).attached(),
            old(self).attached() ==> r@ == old(self).handler_state().pending@ && final(self).handler_state().pending@.len() == 0 && final(self).handler_state().menu_type == old(self).handler_state().menu_type && final(self).handler_state().window_id == old(self).handler_state().window_id,
            !old(self).attached() ==> r@.len() == 0 && *final(self) == *old(self),
    {
        match &mut self.handler {
            Some(h) => h.take_events(),
            None => Vec::new(),
        }
    }

    /// Route one intercepted window message. Teardown reclaims the handler
    /// (exactly once — the state machine cannot leave the torn-down state)
    /// and forwards the message; a command notification in the attached
    /// state is dispatched as `dispatch_command` says and the message is
    /// handled; everything else, including a command after teardown, is
    /// forwarded unchanged to the default host handler.
    pub fn handle_message(
        &mut self,
        registry: &IdRegistry,
        window: WindowId,
        msg: WindowMessage,
    ) -> (r: (MessageOutcome, NativeAction))
        ensures
            msg is Destroy ==> !final(self).attached() && r.0 is ForwardDefault && r.1 is Idle,
            msg matches WindowMessage::Command(wparam) ==> (old(self).attached()
                ==> final(self).attached() && command_dispatched(
                old(self).handler_state(),
                final(self).handler_state(),
                *registry,
                window,
                wparam,
                r.1,
            ) && r.0 is Handled) && (!old(self).attached() ==> *final(self) == *old(self) && r.0
                is ForwardDefault && r.1 is Idle),
            msg is Other ==> *final(self) == *old(self) && r.0 is ForwardDefault && r.1 is Idle,
    {
        match msg {
            WindowMessage::Destroy => {
                self.handler = None;
                (MessageOutcome::ForwardDefault, NativeAction::Idle)
            },
            WindowMessage::Command(wparam) => {
                match &mut self.handler {
                    Some(h) => {
                        let action = dispatch_command(h, registry, window, wparam);
                        (MessageOutcome::Handled, action)
                    },
                    None => (MessageOutcome::ForwardDefault, NativeAction::Idle),
                }
            },
            WindowMessage::Other => (MessageOutcome::ForwardDefault, NativeAction::Idle),
        }
    }
}

} // verus!
