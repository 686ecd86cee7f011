//! The row of playback buttons under a response.

use vstd::prelude::*;

verus! {

/// How a button looks.
#[derive(Clone, Copy, Debug, PartialEq, Eq, Structural)]
pub enum ButtonStyle {
    Primary,
    Success,
    Danger,
}

/// One button of the row.
#[derive(Clone, Copy, Debug, PartialEq, Eq)]
pub struct MusicButton {
    /// The identifier that comes back when the button is pressed.
    pub custom_id: &'static str,
    pub label: &'static str,
    pub style: ButtonStyle,
}

/// The mathematical value of a [`MusicButton`].
pub struct MusicButtonView {
    pub custom_id: Seq<char>,
    pub label: Seq<char>,
    pub style: ButtonStyle,
}

impl View for MusicButton {
    type V = MusicButtonView;

    open spec fn view(&self) -> MusicButtonView {
        MusicButtonView { custom_id: self.custom_id@, label: self.label@, style: self.style }
    }
}

/// The views of a row of buttons.
pub open spec fn button_views(row: Seq<MusicButton>) -> Seq<MusicButtonView> {
    row.map_values(|b: MusicButton| b@)
}

/// The row of playback buttons: clear, resume, pause, skip, loop.
pub open spec fn music_buttons() -> Seq<MusicButtonView> {
    seq![
        MusicButtonView { custom_id: "clear"@, label: "📋 Clear"@, style: ButtonStyle::Danger },
        MusicButtonView { custom_id: "resume"@, label: "▶️ Resume"@, style: ButtonStyle::Success },
        MusicButtonView { custom_id: "pause"@, label: "⏸️ Pause"@, style: ButtonStyle::Primary },
        MusicButtonView { custom_id: "skip"@, label: "⏭️ Skip"@, style: ButtonStyle::Primary },
        MusicButtonView { custom_id: "loop"@, label: "🔄 Loop"@, style: ButtonStyle::Primary },
    ]
}

/// Builds the row of playback buttons.
pub fn create_music_buttons() -> (row: Vec<MusicButton>)
    ensures
        button_views(row@) == music_buttons(),
{
    let clear_button = MusicButton {
        custom_id: "clear",
        label: "📋 Clear",
        style: ButtonStyle::Danger,
    };
    let resume_button = MusicButton {
        custom_id: "resume",
        label: "▶️ Resume",
        style: ButtonStyle::Success,
    };
    let pause_button = MusicButton {
        custom_id: "pause",
        label: "⏸️ Pause",
        style: ButtonStyle::Primary,
    };
    let skip_button = MusicButton {
        custom_id: "skip",
        label: "⏭️ Skip",
        style: ButtonStyle::Primary,
    };
    let loop_button = MusicButton {
        custom_id: "loop",
        label: "🔄 Loop",
        style: ButtonStyle::Primary,
    };

    let mut row: Vec<MusicButton> = Vec::new();
    row.push(clear_button);
    row.push(resume_button);
    row.push(pause_button);
    row.push(skip_button);
    row.push(loop_button);
    assert(button_views(row@) =~= music_buttons());
    row
}

} // verus!
