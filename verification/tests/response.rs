use poor_jimmy::components::music_buttons::{create_music_buttons, ButtonStyle, MusicButton};
use poor_jimmy::handlers::bot_event::{BotEventHandler, ButtonPress, SlashCommand, ACTIVITY};
use poor_jimmy::utils::message;
use poor_jimmy::utils::response::{
    respond_to_button, respond_to_command, respond_to_error, respond_to_error_button, respond_to_followup,
    CommandOutput, Embed, InteractionReply, ReplyTarget,
};
use poor_jimmy::utils::result::{Color, CommandResponse, CommandResult, Outcome, DARK_GREEN, DARK_RED};

fn reply(target: ReplyTarget, text: &str, color: u32, buttons: bool) -> InteractionReply {
    InteractionReply {
        target,
        embed: Embed { description: text.to_string(), color: Color(color), image: None },
        components: if buttons { create_music_buttons() } else { vec![] },
    }
}

#[test]
fn colours_are_the_dark_green_and_dark_red() {
    assert_eq!(DARK_GREEN, 0x1F8B4C);
    assert_eq!(DARK_RED, 0x992D22);
    assert_eq!(Color::dark_green(), Color(0x1F8B4C));
    assert_eq!(Color::dark_red(), Color(0x992D22));
}

#[test]
fn outcome_colours() {
    assert_eq!(Outcome::Success.report_color(), Color(DARK_GREEN));
    assert_eq!(Outcome::Empty.report_color(), Color(DARK_GREEN));
    assert_eq!(Outcome::NotConnected.report_color(), Color(DARK_RED));
    assert_eq!(Outcome::Error.report_color(), Color(DARK_RED));
}

#[test]
fn command_response_builder() {
    let fresh = CommandResponse::new();
    assert_eq!(fresh.get_description(), "");
    assert_eq!(fresh.get_color(), Color(0));
    assert_eq!(CommandResponse::default(), fresh);
    let response =
        CommandResponse::new().description(String::from("Unknown command!")).color(Color(DARK_RED)).clone();
    assert_eq!(response.get_description(), "Unknown command!");
    assert_eq!(response.get_color(), Color(DARK_RED));
    let mut changed = response.clone();
    changed.color(Color(DARK_GREEN));
    assert_eq!(changed.get_description(), "Unknown command!");
    assert_eq!(changed.get_color(), Color(DARK_GREEN));
    changed.description(String::from("other"));
    assert_eq!(changed.get_description(), "other");
    assert_eq!(changed.get_color(), Color(DARK_GREEN));
}

#[test]
fn command_result_response() {
    let ok = CommandResult::plain(Outcome::Success, "fine");
    assert_eq!(ok.queued_count, None);
    assert_eq!(ok.response().get_description(), "fine");
    assert_eq!(ok.response().get_color(), Color(DARK_GREEN));
    let bad = CommandResult::plain(Outcome::Error, "broken");
    assert_eq!(bad.response().get_color(), Color(DARK_RED));
}

#[test]
fn music_buttons_row() {
    assert_eq!(
        create_music_buttons(),
        vec![
            MusicButton { custom_id: "clear", label: "📋 Clear", style: ButtonStyle::Danger },
            MusicButton { custom_id: "resume", label: "▶️ Resume", style: ButtonStyle::Success },
            MusicButton { custom_id: "pause", label: "⏸️ Pause", style: ButtonStyle::Primary },
            MusicButton { custom_id: "skip", label: "⏭️ Skip", style: ButtonStyle::Primary },
            MusicButton { custom_id: "loop", label: "🔄 Loop", style: ButtonStyle::Primary },
        ]
    );
}

#[test]
fn respond_functions_build_the_replies() {
    assert_eq!(respond_to_command("hi".to_string(), false), reply(ReplyTarget::Command, "hi", DARK_GREEN, false));
    assert_eq!(respond_to_command("hi".to_string(), true), reply(ReplyTarget::Command, "hi", DARK_GREEN, true));
    assert_eq!(respond_to_error("no".to_string()), reply(ReplyTarget::Command, "no", DARK_RED, false));
    assert_eq!(respond_to_button("hi".to_string(), true), reply(ReplyTarget::Button, "hi", DARK_GREEN, true));
    assert_eq!(respond_to_button("hi".to_string(), false), reply(ReplyTarget::Button, "hi", DARK_GREEN, false));
    assert_eq!(respond_to_error_button("no".to_string()), reply(ReplyTarget::Button, "no", DARK_RED, false));
}

#[test]
fn followup_and_message_keep_the_embed() {
    let embed = || Embed { description: "d".to_string(), color: Color(7), image: Some("img".to_string()) };
    assert_eq!(
        respond_to_followup(embed(), true),
        InteractionReply { target: ReplyTarget::Followup, embed: embed(), components: create_music_buttons() }
    );
    assert_eq!(
        respond_to_followup(embed(), false),
        InteractionReply { target: ReplyTarget::Followup, embed: embed(), components: vec![] }
    );
    assert_eq!(
        message::respond_to_command(embed()),
        InteractionReply { target: ReplyTarget::Command, embed: embed(), components: vec![] }
    );
}

#[test]
fn outputs_render_by_outcome_and_target() {
    let success = CommandOutput {
        result: CommandResult::plain(Outcome::Success, "done"),
        include_buttons: true,
        image: Some("img".to_string()),
    };
    assert_eq!(success.respond(ReplyTarget::Command), reply(ReplyTarget::Command, "done", DARK_GREEN, true));
    assert_eq!(success.respond(ReplyTarget::Button), reply(ReplyTarget::Button, "done", DARK_GREEN, true));
    let followup = success.respond(ReplyTarget::Followup);
    assert_eq!(followup.embed.image, Some("img".to_string()));
    assert_eq!(followup.embed.color, Color(DARK_GREEN));
    assert_eq!(followup.components, create_music_buttons());
    let failure = CommandOutput {
        result: CommandResult::plain(Outcome::NotConnected, "gone"),
        include_buttons: true,
        image: None,
    };
    assert_eq!(failure.respond(ReplyTarget::Command), reply(ReplyTarget::Command, "gone", DARK_RED, false));
    assert_eq!(failure.respond(ReplyTarget::Button), reply(ReplyTarget::Button, "gone", DARK_RED, false));
    assert_eq!(failure.respond(ReplyTarget::Followup), reply(ReplyTarget::Followup, "gone", DARK_RED, false));
    let empty = CommandOutput::plain(Outcome::Empty, "nothing", false);
    assert_eq!(empty.respond(ReplyTarget::Command), reply(ReplyTarget::Command, "nothing", DARK_GREEN, false));
}

#[test]
fn handler_routes_commands_by_name() {
    let handler = BotEventHandler;
    let known = [
        ("clear", SlashCommand::Clear),
        ("help", SlashCommand::Help),
        ("join", SlashCommand::Join),
        ("leave", SlashCommand::Leave),
        ("list", SlashCommand::List),
        ("loop", SlashCommand::Loop),
        ("pause", SlashCommand::Pause),
        ("ping", SlashCommand::Ping),
        ("play", SlashCommand::Play),
        ("play-title", SlashCommand::PlayTitle),
        ("play-url", SlashCommand::PlayUrl),
        ("skip", SlashCommand::Skip),
        ("resume", SlashCommand::Resume),
    ];
    for (name, command) in known {
        assert_eq!(handler.interaction_create(name), Ok(command));
        assert_eq!(
            command.answers_itself(),
            matches!(command, SlashCommand::Play | SlashCommand::PlayTitle | SlashCommand::PlayUrl)
        );
    }
    for name in ["", "Play", "Loop", "toggle_loop", "play_url", "play-", "stop"] {
        let response = handler.interaction_create(name).unwrap_err();
        assert_eq!(response.get_description(), "Unknown command!");
        assert_eq!(response.get_color(), Color(DARK_RED));
    }
}

#[test]
fn handler_routes_every_music_button() {
    let handler = BotEventHandler;
    let expected =
        [ButtonPress::Clear, ButtonPress::Resume, ButtonPress::Pause, ButtonPress::Skip, ButtonPress::Loop];
    for (button, press) in create_music_buttons().iter().zip(expected) {
        assert_eq!(handler.button_pressed(button.custom_id), Some(press));
    }
    assert_eq!(handler.button_pressed("stop"), None);
}

#[test]
fn handler_routes_every_command_that_it_registers() {
    let handler = BotEventHandler;
    for registration in handler.ready() {
        assert!(handler.interaction_create(registration.name).is_ok(), "{}", registration.name);
    }
}

#[test]
fn handler_registers_its_commands_in_order() {
    let names: Vec<&str> = BotEventHandler.ready().iter().map(|r| r.name).collect();
    assert_eq!(
        names,
        vec![
            "clear",
            "help",
            "join",
            "leave",
            "list",
            "loop",
            "pause",
            "ping",
            "play",
            "play-title",
            "play-url",
            "resume",
            "skip"
        ]
    );
    assert_eq!(ACTIVITY, "/play");
}
