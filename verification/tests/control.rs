use annunciator::clips::ClipTable;
use annunciator::control::{Action, Annunciator, Button};
use annunciator::dial::SPINAL_TAP_INIT;
use device_envoy_core::audio_player::Volume;

type Clip = &'static str;

const NAMES: [Clip; 10] = [
    "zero", "one", "two", "three", "four", "five", "six", "seven", "eight", "nine",
];

fn started(init_level: u8) -> (Annunciator<Clip>, [Action<Clip>; 2]) {
    Annunciator::start(ClipTable::new(NAMES), init_level)
}

fn state(annunciator: &Annunciator<Clip>) -> (u8, u8) {
    (annunciator.dial().level(), annunciator.dial().last_audible())
}

/// A stand-in for the audio player: it holds at most one clip in flight, and
/// a new clip takes the place of the one that is playing.
struct Player {
    playing: Option<Clip>,
    started: Vec<Clip>,
    volume: Option<Volume>,
    volume_changes: usize,
}

impl Player {
    fn new() -> Self {
        Player { playing: None, started: Vec::new(), volume: None, volume_changes: 0 }
    }

    fn perform(&mut self, action: Action<Clip>) {
        match action {
            Action::PlayOnce(clip) => {
                self.playing = Some(clip);
                self.started.push(clip);
            }
            Action::SetVolume(volume) => {
                self.volume = Some(volume);
                self.volume_changes += 1;
            }
            Action::Nothing => {}
        }
    }
}

#[test]
fn startup_sets_the_volume_then_speaks_zero() {
    let (annunciator, commands) = started(SPINAL_TAP_INIT);
    assert_eq!(state(&annunciator), (5, 5));
    assert_eq!(
        commands,
        [Action::SetVolume(Volume::percent(25)), Action::PlayOnce("zero")]
    );
}

#[test]
fn startup_speaks_zero_once_at_every_initial_level() {
    for level in 0..=11u8 {
        let (annunciator, commands) = started(level);
        assert_eq!(annunciator.dial().level(), level);
        let mut player = Player::new();
        for command in commands {
            player.perform(command);
        }
        assert_eq!(player.started, vec!["zero"]);
        assert_eq!(player.volume, Some(Volume::spinal_tap(level)));
        assert_eq!(player.volume_changes, 1);
    }
}

#[test]
fn startup_when_muted_still_commands_the_muted_volume() {
    let (annunciator, commands) = started(0);
    assert_eq!(state(&annunciator), (0, 11));
    assert_eq!(commands, [Action::SetVolume(Volume::MUTE), Action::PlayOnce("zero")]);
}

#[test]
fn digit_plays_its_clip() {
    let (mut annunciator, _) = started(5);
    for digit in 0..=9u8 {
        assert_eq!(
            annunciator.handle(Button::Digit(digit)),
            Action::PlayOnce(NAMES[digit as usize])
        );
    }
    assert_eq!(state(&annunciator), (5, 5));
}

#[test]
fn digit_out_of_range_is_ignored() {
    let (mut annunciator, _) = started(5);
    assert_eq!(annunciator.handle(Button::Digit(10)), Action::Nothing);
    assert_eq!(annunciator.handle(Button::Digit(255)), Action::Nothing);
    assert_eq!(state(&annunciator), (5, 5));
}

#[test]
fn other_button_does_nothing() {
    let (mut annunciator, _) = started(5);
    assert_eq!(annunciator.handle(Button::Other), Action::Nothing);
    assert_eq!(state(&annunciator), (5, 5));
}

#[test]
fn volume_up_commands_the_new_level() {
    let (mut annunciator, _) = started(5);
    assert_eq!(
        annunciator.handle(Button::VolumeUp),
        Action::SetVolume(Volume::percent(35))
    );
    assert_eq!(state(&annunciator), (6, 6));
}

#[test]
fn volume_down_commands_the_new_level() {
    let (mut annunciator, _) = started(5);
    assert_eq!(
        annunciator.handle(Button::VolumeDown),
        Action::SetVolume(Volume::percent(13))
    );
    assert_eq!(state(&annunciator), (4, 4));
}

#[test]
fn volume_up_at_the_top_repeats_the_top_volume() {
    let (mut annunciator, _) = started(11);
    assert_eq!(annunciator.handle(Button::VolumeUp), Action::SetVolume(Volume::MAX));
    assert_eq!(state(&annunciator), (11, 11));
}

#[test]
fn volume_down_at_the_bottom_repeats_the_mute_volume() {
    let (mut annunciator, _) = started(0);
    assert_eq!(annunciator.handle(Button::VolumeDown), Action::SetVolume(Volume::MUTE));
    assert_eq!(state(&annunciator), (0, 11));
}

#[test]
fn mute_commands_silence_and_unmute_commands_the_old_level() {
    let (mut annunciator, _) = started(7);
    assert_eq!(annunciator.handle(Button::Mute), Action::SetVolume(Volume::MUTE));
    assert_eq!(state(&annunciator), (0, 7));
    assert_eq!(
        annunciator.handle(Button::Mute),
        Action::SetVolume(Volume::percent(50))
    );
    assert_eq!(state(&annunciator), (7, 7));
}

#[test]
fn volume_command_uses_the_player_scale() {
    let percents: [u8; 12] = [0, 1, 3, 6, 13, 25, 35, 50, 71, 89, 100, 100];
    let (mut annunciator, _) = started(0);
    for level in 1..=11u8 {
        let action = annunciator.handle(Button::VolumeUp);
        assert_eq!(annunciator.dial().level(), level);
        assert_eq!(action, Action::SetVolume(Volume::percent(percents[level as usize])));
        assert_eq!(action, Action::SetVolume(Volume::spinal_tap(level)));
    }
}

#[test]
fn volume_command_differs_between_neighbouring_levels() {
    let (mut annunciator, _) = started(5);
    let up = annunciator.handle(Button::VolumeUp);
    assert_ne!(up, Action::SetVolume(Volume::spinal_tap(5)));
    assert_eq!(up, Action::SetVolume(Volume::spinal_tap(6)));
}

#[test]
fn five_volume_downs_then_mute_then_volume_up() {
    let (mut annunciator, _) = started(5);
    assert_eq!(state(&annunciator), (5, 5));
    for _ in 0..5 {
        annunciator.handle(Button::VolumeDown);
    }
    assert_eq!(state(&annunciator), (0, 1));
    assert_eq!(
        annunciator.handle(Button::Mute),
        Action::SetVolume(Volume::spinal_tap(1))
    );
    assert_eq!(state(&annunciator), (1, 1));
    assert_eq!(
        annunciator.handle(Button::VolumeUp),
        Action::SetVolume(Volume::spinal_tap(2))
    );
    assert_eq!(state(&annunciator), (2, 2));
}

#[test]
fn mute_after_a_muted_start_goes_to_eleven() {
    let (mut annunciator, _) = started(0);
    assert_eq!(state(&annunciator), (0, 11));
    assert_eq!(annunciator.handle(Button::Mute), Action::SetVolume(Volume::MAX));
    assert_eq!(annunciator.dial().level(), 11);
}

#[test]
fn new_digit_supersedes_the_clip_in_flight() {
    let (mut annunciator, _) = started(5);
    let mut player = Player::new();
    player.perform(annunciator.handle(Button::Digit(1)));
    assert_eq!(player.playing, Some("one"));
    player.perform(annunciator.handle(Button::Digit(3)));
    assert_eq!(player.playing, Some("three"));
    assert_eq!(player.started, vec!["one", "three"]);
}

#[test]
fn every_press_yields_exactly_one_action_for_the_player() {
    let (mut annunciator, commands) = started(5);
    let mut player = Player::new();
    for command in commands {
        player.perform(command);
    }
    let presses = [
        Button::Digit(4),
        Button::VolumeUp,
        Button::Other,
        Button::Mute,
        Button::Digit(12),
        Button::Mute,
        Button::VolumeDown,
        Button::Digit(9),
    ];
    for press in presses {
        player.perform(annunciator.handle(press));
    }
    assert_eq!(player.started, vec!["zero", "four", "nine"]);
    assert_eq!(player.volume_changes, 5);
    assert_eq!(player.volume, Some(Volume::spinal_tap(5)));
    assert_eq!(state(&annunciator), (5, 5));
}

#[test]
fn dial_stays_valid_under_a_long_run_of_presses() {
    let (mut annunciator, _) = started(5);
    let mut seed: u32 = 12345;
    for _ in 0..2000 {
        seed = seed.wrapping_mul(1_103_515_245).wrapping_add(12_345);
        let press = match (seed >> 16) % 5 {
            0 => Button::VolumeUp,
            1 => Button::VolumeDown,
            2 => Button::Mute,
            3 => Button::Digit((seed >> 8) as u8),
            _ => Button::Other,
        };
        let before = state(&annunciator);
        let action = annunciator.handle(press);
        let (level, last_audible) = state(&annunciator);
        assert!(level <= 11);
        assert!((1..=11).contains(&last_audible));
        if level > 0 {
            assert_eq!(last_audible, level);
        }
        match press {
            Button::Digit(_) | Button::Other => assert_eq!(state(&annunciator), before),
            _ => assert_eq!(action, Action::SetVolume(Volume::spinal_tap(level))),
        }
    }
}
