//! What holds over a whole session, from the start on.

use crate::config::{ConfigModel, WindowPosition};
use crate::effect::EffectModel;
use crate::gui::{GuiModel, Message, WindowEvent};
use crate::laws::{
    one_folder_dialog_at_a_time, some_settings_never_change, the_last_noted_position_is_saved,
};
use crate::laws::settings::{
    a_setting_has_the_value_that_was_chosen, choices_change_only_when_made,
    media_options_change_only_when_chosen, other_settings_change_only_on_their_events,
};
use crate::laws::window::closing_saves_the_settings_in_force;
use crate::path::PathModel;
use crate::single::zero;
use vstd::prelude::*;

verus! {

/// One step of a session: an event, or an answer to what the interface asked for.
pub enum Step {
    Event(Message),
    Started(Option<Result<Seq<char>, Seq<char>>>),
    VideoEnded(bool),
}

impl GuiModel {
    /// The state after a step.
    pub open spec fn after_step(self, step: Step) -> GuiModel {
        match step {
            Step::Event(event) => self.after(event),
            Step::Started(note) => GuiModel { download_message: note, ..self },
            Step::VideoEnded(multiple) => self.after_video(multiple),
        }
    }

    /// What a step asks for.
    pub open spec fn effects_of_step(self, step: Step) -> Seq<EffectModel> {
        match step {
            Step::Event(event) => self.effects_of(event),
            Step::Started(note) => seq![],
            Step::VideoEnded(multiple) => self.effects_of_video(multiple),
        }
    }

    /// The state after some steps.
    pub open spec fn after_steps(self, steps: Seq<Step>) -> GuiModel
        decreases steps.len(),
    {
        if steps.len() == 0 {
            self
        } else {
            self.after_steps(steps.drop_last()).after_step(steps.last())
        }
    }

    /// What some steps ask for, one after the other.
    pub open spec fn effects_of_steps(self, steps: Seq<Step>) -> Seq<EffectModel>
        decreases steps.len(),
    {
        if steps.len() == 0 {
            seq![]
        } else {
            self.effects_of_steps(steps.drop_last()) + self.after_steps(
                steps.drop_last(),
            ).effects_of_step(steps.last())
        }
    }
}

/// The position that the last move among some steps gave the window, or the origin.
pub open spec fn last_move(steps: Seq<Step>) -> WindowPosition
    decreases steps.len(),
{
    if steps.len() == 0 {
        WindowPosition { x: zero(), y: zero() }
    } else {
        match steps.last() {
            Step::Event(
                Message::IcedEvent(WindowEvent::Moved { x, y }),
            ) => WindowPosition { x, y },
            _ => last_move(steps.drop_last()),
        }
    }
}

/// Steps taken in two parts lead to the same state, and ask for the same, as all of them at once.
pub proof fn steps_can_be_taken_in_parts(gui: GuiModel, first: Seq<Step>, rest: Seq<Step>)
    ensures
        gui.after_steps(first + rest) == gui.after_steps(first).after_steps(rest),
        gui.effects_of_steps(first + rest) == gui.effects_of_steps(first) + gui.after_steps(
            first,
        ).effects_of_steps(rest),
    decreases rest.len(),
{
    let all = first + rest;
    if rest.len() == 0 {
        assert(all =~= first);
        assert(gui.effects_of_steps(first) + seq![] =~= gui.effects_of_steps(first));
    } else {
        assert(all.drop_last() =~= first + rest.drop_last());
        steps_can_be_taken_in_parts(gui, first, rest.drop_last());
        let middle = gui.after_steps(first);
        let last = middle.after_steps(rest.drop_last()).effects_of_step(rest.last());
        assert((gui.effects_of_steps(first) + middle.effects_of_steps(rest.drop_last())) + last
            =~= gui.effects_of_steps(first) + (middle.effects_of_steps(rest.drop_last()) + last));
    }
}

/// Whether a step is the answer of the folder dialog.
pub open spec fn answers_the_dialog(step: Step) -> bool {
    step matches Step::Event(event) && event is SelectedDownloadFolder
}

/// What came of an attempt to start yt-dlp becomes the note, and nothing else changes or is asked
/// for. An event and the end of a video are steps as they are.
pub proof fn a_step_does_what_its_event_does(
    gui: GuiModel,
    note: Option<Result<Seq<char>, Seq<char>>>,
    event: Message,
    multiple: bool,
)
    ensures
        gui.after_step(Step::Started(note)) == (GuiModel { download_message: note, ..gui }),
        gui.effects_of_step(Step::Started(note)).len() == 0,
        gui.after_step(Step::Event(event)) == gui.after(event),
        gui.effects_of_step(Step::Event(event)) == gui.effects_of(event),
        gui.after_step(Step::VideoEnded(multiple)) == gui.after_video(multiple),
        gui.effects_of_step(Step::VideoEnded(multiple)) == gui.effects_of_video(multiple),
{
}

/// Whether none of the events among some steps is of a certain kind.
pub open spec fn without(steps: Seq<Step>, kind: spec_fn(Message) -> bool) -> bool {
    forall|i: int, event: Message|
        0 <= i < steps.len() && #[trigger] steps[i] == Step::Event(event) ==> !#[trigger] kind(
            event,
        )
}

proof fn without_the_last(steps: Seq<Step>, kind: spec_fn(Message) -> bool)
    requires
        without(steps, kind),
        steps.len() > 0,
    ensures
        without(steps.drop_last(), kind),
        steps.last() matches Step::Event(event) ==> !kind(event),
{
    let fewer = steps.drop_last();
    assert forall|i: int, event: Message|
        0 <= i < fewer.len() && #[trigger] fewer[i] == Step::Event(event) implies !#[trigger] kind(
        event,
    ) by {
        assert(steps[i] == fewer[i]);
    }
    assert(steps[steps.len() - 1] == steps.last());
}

/// A link stays until another is typed, whatever else happens.
pub proof fn a_link_lasts_until_the_next(gui: GuiModel, steps: Seq<Step>)
    requires
        without(steps, |event: Message| event is InputChanged),
    ensures
        gui.after_steps(steps).download_link == gui.download_link,
    decreases steps.len(),
{
    if steps.len() > 0 {
        without_the_last(steps, |event: Message| event is InputChanged);
        a_link_lasts_until_the_next(gui, steps.drop_last());
        if let Step::Event(event) = steps.last() {
            choices_change_only_when_made(gui.after_steps(steps.drop_last()), event);
        }
    }
}

/// The playlist setting stays until the next choice of it.
pub proof fn the_playlist_setting_lasts_until_the_next(gui: GuiModel, steps: Seq<Step>)
    requires
        without(steps, |event: Message| event is TogglePlaylist),
    ensures
        gui.after_steps(steps).is_playlist == gui.is_playlist,
    decreases steps.len(),
{
    if steps.len() > 0 {
        without_the_last(steps, |event: Message| event is TogglePlaylist);
        the_playlist_setting_lasts_until_the_next(gui, steps.drop_last());
        if let Step::Event(event) = steps.last() {
            choices_change_only_when_made(gui.after_steps(steps.drop_last()), event);
        }
    }
}

/// The SponsorBlock choice stays until the next one.
pub proof fn a_sponsorblock_choice_lasts_until_the_next(gui: GuiModel, steps: Seq<Step>)
    requires
        without(steps, |event: Message| event is SelectedSponsorBlockOption),
    ensures
        gui.after_steps(steps).sponsorblock == gui.sponsorblock,
    decreases steps.len(),
{
    if steps.len() > 0 {
        without_the_last(steps, |event: Message| event is SelectedSponsorBlockOption);
        a_sponsorblock_choice_lasts_until_the_next(gui, steps.drop_last());
        if let Step::Event(event) = steps.last() {
            choices_change_only_when_made(gui.after_steps(steps.drop_last()), event);
        }
    }
}

/// A tab stays until another is chosen.
pub proof fn a_tab_lasts_until_the_next(gui: GuiModel, steps: Seq<Step>)
    requires
        without(steps, |event: Message| event is SelectTab),
    ensures
        gui.after_steps(steps).active_tab == gui.active_tab,
    decreases steps.len(),
{
    if steps.len() > 0 {
        without_the_last(steps, |event: Message| event is SelectTab);
        a_tab_lasts_until_the_next(gui, steps.drop_last());
        if let Step::Event(event) = steps.last() {
            choices_change_only_when_made(gui.after_steps(steps.drop_last()), event);
        }
    }
}

/// A video format stays until another is chosen.
pub proof fn a_video_format_lasts_until_the_next(gui: GuiModel, steps: Seq<Step>)
    requires
        without(steps, |event: Message| event is SelectedVideoFormat),
    ensures
        gui.after_steps(steps).config.options.video_format == gui.config.options.video_format,
    decreases steps.len(),
{
    if steps.len() > 0 {
        without_the_last(steps, |event: Message| event is SelectedVideoFormat);
        a_video_format_lasts_until_the_next(gui, steps.drop_last());
        if let Step::Event(event) = steps.last() {
            media_options_change_only_when_chosen(gui.after_steps(steps.drop_last()), event);
        }
    }
}

/// A resolution stays until another is chosen.
pub proof fn a_resolution_lasts_until_the_next(gui: GuiModel, steps: Seq<Step>)
    requires
        without(steps, |event: Message| event is SelectedResolution),
    ensures
        gui.after_steps(steps).config.options.video_resolution
            == gui.config.options.video_resolution,
    decreases steps.len(),
{
    if steps.len() > 0 {
        without_the_last(steps, |event: Message| event is SelectedResolution);
        a_resolution_lasts_until_the_next(gui, steps.drop_last());
        if let Step::Event(event) = steps.last() {
            media_options_change_only_when_chosen(gui.after_steps(steps.drop_last()), event);
        }
    }
}

/// An audio format stays until another is chosen.
pub proof fn an_audio_format_lasts_until_the_next(gui: GuiModel, steps: Seq<Step>)
    requires
        without(steps, |event: Message| event is SelectedAudioFormat),
    ensures
        gui.after_steps(steps).config.options.audio_format == gui.config.options.audio_format,
    decreases steps.len(),
{
    if steps.len() > 0 {
        without_the_last(steps, |event: Message| event is SelectedAudioFormat);
        an_audio_format_lasts_until_the_next(gui, steps.drop_last());
        if let Step::Event(event) = steps.last() {
            media_options_change_only_when_chosen(gui.after_steps(steps.drop_last()), event);
        }
    }
}

/// An audio quality stays until another is chosen.
pub proof fn an_audio_quality_lasts_until_the_next(gui: GuiModel, steps: Seq<Step>)
    requires
        without(steps, |event: Message| event is SelectedAudioQuality),
    ensures
        gui.after_steps(steps).config.options.audio_quality == gui.config.options.audio_quality,
    decreases steps.len(),
{
    if steps.len() > 0 {
        without_the_last(steps, |event: Message| event is SelectedAudioQuality);
        an_audio_quality_lasts_until_the_next(gui, steps.drop_last());
        if let Step::Event(event) = steps.last() {
            media_options_change_only_when_chosen(gui.after_steps(steps.drop_last()), event);
        }
    }
}

/// The folder that an event chooses: one that is typed in, or one that is picked in the dialog.
pub open spec fn folder_chosen(event: Message) -> Option<PathModel> {
    match event {
        Message::SelectFolderTextInput(text) => Some(PathModel::Text(text@)),
        Message::SelectedDownloadFolder(Some(path)) => Some(path@),
        _ => None,
    }
}

/// A folder stays until another is typed in or picked.
pub proof fn a_folder_lasts_until_the_next(gui: GuiModel, steps: Seq<Step>)
    requires
        without(steps, |event: Message| folder_chosen(event) is Some),
    ensures
        gui.after_steps(steps).config.download_folder == gui.config.download_folder,
    decreases steps.len(),
{
    if steps.len() > 0 {
        without_the_last(steps, |event: Message| folder_chosen(event) is Some);
        a_folder_lasts_until_the_next(gui, steps.drop_last());
        if let Step::Event(event) = steps.last() {
            other_settings_change_only_on_their_events(gui.after_steps(steps.drop_last()), event);
        }
    }
}

/// The folder that closing the window saves is the one that was last typed in or picked.
pub proof fn the_folder_last_chosen_is_saved(
    config: ConfigModel,
    before: Seq<Step>,
    choice: Message,
    rest: Seq<Step>,
)
    requires
        folder_chosen(choice) is Some,
        without(rest, |event: Message| folder_chosen(event) is Some),
    ensures
        ({
            let steps = before.push(Step::Event(choice)) + rest;
            let closed = GuiModel::initial(config).after_steps(steps).after(
                Message::IcedEvent(WindowEvent::CloseRequested),
            );
            &&& closed.config.download_folder == folder_chosen(choice)
            &&& closed.config.url is None
        }),
{
    let gui = GuiModel::initial(config);
    let first = before.push(Step::Event(choice));
    assert(first.drop_last() =~= before);
    a_setting_has_the_value_that_was_chosen(gui.after_steps(before), choice);
    steps_can_be_taken_in_parts(gui, first, rest);
    a_folder_lasts_until_the_next(gui.after_steps(first), rest);
    closing_saves_the_settings_in_force(gui.after_steps(first + rest));
}

/// Where no folder was typed in or picked, closing the window saves the one that was loaded.
pub proof fn without_a_choice_the_loaded_folder_is_saved(config: ConfigModel, steps: Seq<Step>)
    requires
        without(steps, |event: Message| folder_chosen(event) is Some),
    ensures
        ({
            let closed = GuiModel::initial(config).after_steps(steps).after(
                Message::IcedEvent(WindowEvent::CloseRequested),
            );
            &&& closed.config.download_folder == config.download_folder
            &&& closed.config.url is None
        }),
{
    a_folder_lasts_until_the_next(GuiModel::initial(config), steps);
    closing_saves_the_settings_in_force(GuiModel::initial(config).after_steps(steps));
}

/// Where no media option was chosen, closing the window saves those that were loaded.
pub proof fn without_a_choice_the_loaded_options_are_saved(config: ConfigModel, steps: Seq<Step>)
    requires
        without(steps, |event: Message| event is SelectedVideoFormat),
        without(steps, |event: Message| event is SelectedResolution),
        without(steps, |event: Message| event is SelectedAudioFormat),
        without(steps, |event: Message| event is SelectedAudioQuality),
    ensures
        GuiModel::initial(config).after_steps(steps).after(
            Message::IcedEvent(WindowEvent::CloseRequested),
        ).config.options == config.options,
{
    let gui = GuiModel::initial(config);
    a_video_format_lasts_until_the_next(gui, steps);
    a_resolution_lasts_until_the_next(gui, steps);
    an_audio_format_lasts_until_the_next(gui, steps);
    an_audio_quality_lasts_until_the_next(gui, steps);
    closing_saves_the_settings_in_force(gui.after_steps(steps));
}

/// While a folder dialog is open, no other is opened before the first has answered, whatever
/// else happens.
pub proof fn no_second_dialog_before_an_answer(gui: GuiModel, steps: Seq<Step>)
    requires
        gui.is_choosing_folder,
        forall|i: int| 0 <= i < steps.len() ==> !answers_the_dialog(#[trigger] steps[i]),
    ensures
        gui.after_steps(steps).is_choosing_folder,
        forall|i: int, j: int|
            #![trigger gui.after_steps(steps.take(i)).effects_of_step(steps[i])[j]]
            0 <= i < steps.len() && 0 <= j < gui.after_steps(steps.take(i)).effects_of_step(
                steps[i],
            ).len() ==> !(gui.after_steps(steps.take(i)).effects_of_step(
                steps[i],
            )[j] is ChooseFolder),
    decreases steps.len(),
{
    if steps.len() > 0 {
        let fewer = steps.drop_last();
        let before = gui.after_steps(fewer);
        assert forall|i: int| 0 <= i < fewer.len() implies !answers_the_dialog(
            #[trigger] fewer[i],
        ) by {
            assert(!answers_the_dialog(steps[i]));
        }
        no_second_dialog_before_an_answer(gui, fewer);
        assert(!answers_the_dialog(steps[steps.len() - 1]));
        if let Step::Event(event) = steps.last() {
            one_folder_dialog_at_a_time(before, event);
        }
        assert forall|i: int, j: int|
            #![trigger gui.after_steps(steps.take(i)).effects_of_step(steps[i])[j]]
            0 <= i < steps.len() && 0 <= j < gui.after_steps(steps.take(i)).effects_of_step(
                steps[i],
            ).len() implies !(gui.after_steps(steps.take(i)).effects_of_step(
            steps[i],
        )[j] is ChooseFolder) by {
            if i < steps.len() - 1 {
                assert(steps.take(i) =~= fewer.take(i));
                assert(steps[i] == fewer[i]);
                assert(!(gui.after_steps(fewer.take(i)).effects_of_step(
                    fewer[i],
                )[j] is ChooseFolder));
            } else {
                assert(steps.take(i) =~= fewer);
            }
        }
    }
}

/// Where yt-dlp is, whether the window position is kept, and the window size that was loaded
/// stay what they were when the session began.
pub proof fn loaded_settings_last_the_session(config: ConfigModel, steps: Seq<Step>)
    ensures
        ({
            let now = GuiModel::initial(config).after_steps(steps).config;
            &&& now.bin_dir == config.bin_dir
            &&& now.save_window_position == config.save_window_position
            &&& now.window_size == config.window_size
        }),
    decreases steps.len(),
{
    if steps.len() > 0 {
        loaded_settings_last_the_session(config, steps.drop_last());
        if let Step::Event(event) = steps.last() {
            let before = GuiModel::initial(config).after_steps(steps.drop_last());
            some_settings_never_change(before, event);
        }
    }
}

/// Where the window position is not kept, it is taken to be the origin throughout.
pub proof fn an_unkept_position_is_the_origin(config: ConfigModel, steps: Seq<Step>)
    requires
        !config.save_window_position,
    ensures
        GuiModel::initial(config).after_steps(steps).window_pos == (WindowPosition {
            x: zero(),
            y: zero(),
        }),
    decreases steps.len(),
{
    if steps.len() > 0 {
        an_unkept_position_is_the_origin(config, steps.drop_last());
        loaded_settings_last_the_session(config, steps.drop_last());
        if let Step::Event(event) = steps.last() {
            let before = GuiModel::initial(config).after_steps(steps.drop_last());
            the_last_noted_position_is_saved(before, event);
        }
    }
}

/// Where the window position is kept, it is that of the last move, or the origin if there was
/// none; closing the window saves it.
pub proof fn a_kept_position_is_the_last_move(config: ConfigModel, steps: Seq<Step>)
    requires
        config.save_window_position,
    ensures
        ({
            let now = GuiModel::initial(config).after_steps(steps);
            let closed = now.after(Message::IcedEvent(WindowEvent::CloseRequested));
            &&& now.window_pos == last_move(steps)
            &&& closed.config.window_position == Some(last_move(steps))
        }),
    decreases steps.len(),
{
    if steps.len() > 0 {
        a_kept_position_is_the_last_move(config, steps.drop_last());
        loaded_settings_last_the_session(config, steps.drop_last());
        if let Step::Event(event) = steps.last() {
            let before = GuiModel::initial(config).after_steps(steps.drop_last());
            the_last_noted_position_is_saved(before, event);
        }
    }
}

} // verus!
