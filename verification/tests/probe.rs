use spotify_freemium::port::{Command, ExecutionError, Reply, Request};
use spotify_freemium::spotify::{
    acknowledge, get_song_name, get_volume, is_open, is_playing_ad, mute, open, pause, play,
    play_pause, quit, set_volume, InvalidArgument, MAX_VOLUME,
};

fn output(text: &str) -> Reply {
    Ok(String::from(text))
}

fn bare(command: Command) -> Request {
    Request { command, args: vec![] }
}

#[test]
fn actions_without_arguments_name_their_command() {
    assert_eq!(open(), bare(Command::Open));
    assert_eq!(quit(), bare(Command::Quit));
    assert_eq!(play(), bare(Command::Play));
    assert_eq!(pause(), bare(Command::Pause));
    assert_eq!(play_pause(), bare(Command::PlayPause));
}

#[test]
fn set_volume_writes_the_volume_in_decimal() {
    let request = set_volume(57).unwrap();
    assert_eq!(request.command, Command::SetVolume);
    assert_eq!(request.args, vec![String::from("57")]);
    assert_eq!(set_volume(0).unwrap().args, vec![String::from("0")]);
    assert_eq!(set_volume(7).unwrap().args, vec![String::from("7")]);
    assert_eq!(set_volume(100).unwrap().args, vec![String::from("100")]);
}

#[test]
fn set_volume_accepts_every_volume_up_to_the_maximum() {
    for volume in 0..=MAX_VOLUME {
        let request = set_volume(volume).unwrap();
        assert_eq!(request.command, Command::SetVolume);
        assert_eq!(request.args, vec![volume.to_string()]);
    }
}

#[test]
fn set_volume_refuses_every_volume_above_the_maximum() {
    for volume in 101..=u8::MAX {
        assert_eq!(set_volume(volume), Err(InvalidArgument { volume }));
    }
}

#[test]
fn mute_is_set_volume_zero() {
    assert_eq!(mute(), set_volume(0));
    assert_eq!(mute().unwrap().args, vec![String::from("0")]);
}

#[test]
fn acknowledge_ignores_the_output() {
    assert_eq!(acknowledge(output("anything at all\n")), Ok(()));
    assert_eq!(acknowledge(output("")), Ok(()));
}

#[test]
fn acknowledge_passes_each_failure_on() {
    assert_eq!(acknowledge(Err(ExecutionError::NotFound)), Err(ExecutionError::NotFound));
    assert_eq!(acknowledge(Err(ExecutionError::DecodeError)), Err(ExecutionError::DecodeError));
    assert_eq!(
        acknowledge(Err(ExecutionError::NonZeroExit(String::from("no such app")))),
        Err(ExecutionError::NonZeroExit(String::from("no such app")))
    );
}

#[test]
fn is_open_matches_the_trimmed_word_exactly() {
    assert_eq!(is_open(output("true")), Ok(true));
    assert_eq!(is_open(output("true\n")), Ok(true));
    assert_eq!(is_open(output("  true \t\r\n")), Ok(true));
    assert_eq!(is_open(output("false\n")), Ok(false));
    assert_eq!(is_open(output("True")), Ok(false));
    assert_eq!(is_open(output("true!")), Ok(false));
    assert_eq!(is_open(output("tru")), Ok(false));
    assert_eq!(is_open(output("t rue")), Ok(false));
    assert_eq!(is_open(output("")), Ok(false));
    assert_eq!(is_open(Err(ExecutionError::NotFound)), Err(ExecutionError::NotFound));
}

#[test]
fn is_playing_ad_on_an_ad_identifier() {
    assert_eq!(is_playing_ad(output("spotify:ad:123456")), Ok(true));
}

#[test]
fn is_playing_ad_on_a_track_identifier() {
    assert_eq!(is_playing_ad(output("spotify:track:789")), Ok(false));
}

#[test]
fn is_playing_ad_looks_at_the_trimmed_prefix() {
    assert_eq!(is_playing_ad(output("spotify:ad")), Ok(true));
    assert_eq!(is_playing_ad(output("\n spotify:ad:1\n")), Ok(true));
    assert_eq!(is_playing_ad(output("spotify:a")), Ok(false));
    assert_eq!(is_playing_ad(output("Spotify:ad:1")), Ok(false));
    assert_eq!(is_playing_ad(output("x spotify:ad:1")), Ok(false));
    assert_eq!(is_playing_ad(output("")), Ok(false));
    assert_eq!(is_playing_ad(output("   ")), Ok(false));
}

#[test]
fn is_playing_ad_passes_a_failure_on() {
    assert_eq!(
        is_playing_ad(Err(ExecutionError::NonZeroExit(String::from("not running")))),
        Err(ExecutionError::NonZeroExit(String::from("not running")))
    );
}

#[test]
fn get_volume_reads_a_number_with_its_line_end() {
    assert_eq!(get_volume(output("57\n")), Ok(57));
}

#[test]
fn get_volume_refuses_what_is_no_number() {
    assert_eq!(get_volume(output("abc")), Err(ExecutionError::DecodeError));
}

#[test]
fn get_volume_refuses_a_number_out_of_range() {
    assert_eq!(get_volume(output("150")), Err(ExecutionError::DecodeError));
}

#[test]
fn get_volume_at_the_edges() {
    assert_eq!(get_volume(output("0")), Ok(0));
    assert_eq!(get_volume(output("100")), Ok(100));
    assert_eq!(get_volume(output("101")), Err(ExecutionError::DecodeError));
    assert_eq!(get_volume(output("255")), Err(ExecutionError::DecodeError));
    assert_eq!(get_volume(output("256")), Err(ExecutionError::DecodeError));
    assert_eq!(get_volume(output("99999999999999999999999999")), Err(ExecutionError::DecodeError));
    assert_eq!(get_volume(output("")), Err(ExecutionError::DecodeError));
    assert_eq!(get_volume(output(" \n")), Err(ExecutionError::DecodeError));
    assert_eq!(get_volume(output("+")), Err(ExecutionError::DecodeError));
    assert_eq!(get_volume(output("+40")), Ok(40));
    assert_eq!(get_volume(output("-0")), Err(ExecutionError::DecodeError));
    assert_eq!(get_volume(output("-5")), Err(ExecutionError::DecodeError));
    assert_eq!(get_volume(output("007")), Ok(7));
    assert_eq!(get_volume(output("0000000000000000000000100")), Ok(100));
    assert_eq!(get_volume(output("4 0")), Err(ExecutionError::DecodeError));
    assert_eq!(get_volume(output("40.0")), Err(ExecutionError::DecodeError));
    assert_eq!(get_volume(output("++4")), Err(ExecutionError::DecodeError));
    assert_eq!(get_volume(output("\u{a0}40\u{3000}")), Ok(40));
    assert_eq!(get_volume(output("\u{663}")), Err(ExecutionError::DecodeError));
}

#[test]
fn get_volume_passes_a_failure_on() {
    assert_eq!(get_volume(Err(ExecutionError::NotFound)), Err(ExecutionError::NotFound));
}

#[test]
fn get_volume_agrees_with_the_standard_parser() {
    let pieces = ["", "0", "1", "9", "10", "00", "+", "-", " ", "\n", "a", "5", "99", "100"];
    for a in pieces {
        for b in pieces {
            for c in pieces {
                let text = format!("{}{}{}", a, b, c);
                let expected = match text.trim().parse::<u8>() {
                    Ok(volume) if volume <= 100 => Ok(volume),
                    _ => Err(ExecutionError::DecodeError),
                };
                assert_eq!(get_volume(Ok(text)), expected);
            }
        }
    }
}

#[test]
fn get_volume_reads_what_set_volume_writes() {
    for volume in 0..=MAX_VOLUME {
        let mut request = set_volume(volume).unwrap();
        let argument = request.args.remove(0);
        assert_eq!(get_volume(Ok(argument)), Ok(volume));
    }
}

#[test]
fn get_song_name_keeps_the_output_as_it_is() {
    assert_eq!(get_song_name(output("  A Song \n")), Ok(String::from("  A Song \n")));
    assert_eq!(get_song_name(Err(ExecutionError::DecodeError)), Err(ExecutionError::DecodeError));
}
