//! What happens to the window.

use crate::effect::EffectModel;
use crate::gui::{GuiModel, Message, WindowEvent};
use vstd::prelude::*;

verus! {

/// The settings that closing the window writes are those in force, with the noted position put in
/// and the link of the moment dropped. Nothing but the settings changes.
pub proof fn closing_saves_the_settings_in_force(gui: GuiModel)
    ensures
        ({
            let after = gui.after(Message::IcedEvent(WindowEvent::CloseRequested));
            &&& after.config.download_folder == gui.config.download_folder
            &&& after.config.options == gui.config.options
            &&& after.config.bin_dir == gui.config.bin_dir
            &&& after.config.save_window_position == gui.config.save_window_position
            &&& after.config.window_size == gui.config.window_size
            &&& after.config.window_position == Some(gui.window_pos)
            &&& after.config.url is None
            &&& after == GuiModel { config: after.config, ..gui }
        }),
{
}

/// Closing kills yt-dlp, then saves the settings, where a failure is no reason to stay open, and
/// then closes the window.
pub proof fn closing_kills_saves_and_closes(gui: GuiModel)
    ensures
        gui.effects_of(Message::IcedEvent(WindowEvent::CloseRequested)) == seq![
            EffectModel::Kill,
            EffectModel::SaveConfig { required: false },
            EffectModel::CloseWindow,
        ],
{
}

/// Any other event of the window asks for nothing and leaves everything alone but the size, on a
/// change of size, and the position, on a move that is to be noted.
pub proof fn moves_and_sizes_are_noted(gui: GuiModel, event: WindowEvent)
    requires
        !(event is CloseRequested),
    ensures
        ({
            let after = gui.after(Message::IcedEvent(event));
            &&& gui.effects_of(Message::IcedEvent(event)).len() == 0
            &&& after == GuiModel {
                window_size: after.window_size,
                window_pos: after.window_pos,
                ..gui
            }
            &&& event matches WindowEvent::Resized { width, height } ==> after.window_size.width
                == width && after.window_size.height == height
            &&& !(event is Resized) ==> after.window_size == gui.window_size
            &&& event matches WindowEvent::Moved { x, y } ==> (gui.config.save_window_position
                ==> after.window_pos.x == x && after.window_pos.y == y)
            &&& !(event is Moved) || !gui.config.save_window_position ==> after.window_pos
                == gui.window_pos
        }),
{
}

/// Events of the window alone change the noted size and position.
#[verifier::rlimit(60)]
pub proof fn only_the_window_changes_size_and_position(gui: GuiModel, event: Message)
    requires
        !(event is IcedEvent),
    ensures
        gui.after(event).window_size == gui.window_size,
        gui.after(event).window_pos == gui.window_pos,
{
    match event {
        Message::Command(message) => {},
        Message::ProgressEvent(progress) => {},
        _ => {},
    }
}

/// As an event, what happens to the window does what it does on its own.
pub proof fn window_events_are_events(gui: GuiModel, event: WindowEvent)
    ensures
        gui.after(Message::IcedEvent(event)) == gui.after_window_event(event),
        gui.effects_of(Message::IcedEvent(event)) == gui.effects_of_window_event(event),
{
}

} // verus!
