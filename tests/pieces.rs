use direnv_instant::handoff::{first_descriptor, handoff_request};
use direnv_instant::mux::{mux_delay_ms, MuxEnv, Multiplexer, PaneCommand, SpawnError};
use direnv_instant::term::TermModes;

#[test]
fn request_line_is_watch() {
    assert_eq!(handoff_request(), b"WATCH\n".to_vec());
}

#[test]
fn first_descriptor_of_first_carrier() {
    let entries = vec![None, Some(vec![]), Some(vec![9, 10]), Some(vec![11])];
    assert_eq!(first_descriptor(&entries), Some(9));
    assert_eq!(first_descriptor(&vec![None, Some(vec![])]), None);
    assert_eq!(first_descriptor(&vec![]), None);
}

#[test]
fn raw_mode_clears_only_named_bits() {
    let m = TermModes { local: 0b1111_0000, input: 0b1010 };
    let clear = TermModes { local: 0b1001_0001, input: 0b0010 };
    assert_eq!(m.raw(&clear), TermModes { local: 0b0110_0000, input: 0b1000 });
}

fn env(tmux: bool, zellij: bool, term: Option<&str>, kitty: Option<&str>) -> MuxEnv {
    MuxEnv {
        tmux,
        zellij,
        term_program: term.map(String::from),
        kitty_listen_on: kitty.map(String::from),
    }
}

#[test]
fn detect_in_order() {
    assert_eq!(Multiplexer::detect(&env(true, true, None, None)), Some(Multiplexer::Tmux));
    assert_eq!(Multiplexer::detect(&env(false, true, None, None)), Some(Multiplexer::Zellij));
    assert_eq!(
        Multiplexer::detect(&env(false, false, Some("WezTerm"), Some("unix:/k"))),
        Some(Multiplexer::Wezterm)
    );
    assert_eq!(
        Multiplexer::detect(&env(false, false, Some("wezterm"), Some("unix:/k"))),
        Some(Multiplexer::Kitty)
    );
    assert_eq!(Multiplexer::detect(&env(false, false, Some("iTerm"), None)), None);
}

fn strings(v: &[&str]) -> Vec<String> {
    v.iter().map(|s| s.to_string()).collect()
}

#[test]
fn spawn_tmux_command() {
    let c = Multiplexer::Tmux.spawn(Some("/bin/di".to_string()), "/tmp/log", "/tmp/sock", None);
    assert_eq!(
        c,
        Ok(PaneCommand {
            program: "tmux".to_string(),
            args: strings(&["split-window", "-d", "-l", "10", "/bin/di", "watch", "/tmp/log", "/tmp/sock"]),
        })
    );
}

#[test]
fn spawn_zellij_and_wezterm_commands() {
    let z = Multiplexer::Zellij.spawn(None, "l", "s", None).unwrap();
    assert_eq!(z.program, "zellij");
    assert_eq!(
        z.args,
        strings(&["action", "new-pane", "-d", "down", "--width", "10", "--", "direnv-instant", "watch", "l", "s"])
    );
    let w = Multiplexer::Wezterm.spawn(None, "l", "s", None).unwrap();
    assert_eq!(w.program, "wezterm");
    assert_eq!(
        w.args,
        strings(&["cli", "split-pane", "--bottom", "--cells", "10", "direnv-instant", "watch", "l", "s"])
    );
}

#[test]
fn spawn_kitty_needs_address() {
    assert_eq!(Multiplexer::Kitty.spawn(None, "l", "s", None), Err(SpawnError::KittyAddressUnset));
    let k = Multiplexer::Kitty.spawn(Some("b".to_string()), "l", "s", Some("unix:@k".to_string())).unwrap();
    assert_eq!(k.program, "kitty");
    assert_eq!(
        k.args,
        strings(&["@", "--to", "unix:@k", "launch", "--location", "vsplit", "--keep-focus", "b", "watch", "l", "s"])
    );
}

#[test]
fn mux_delay_from_seconds() {
    assert_eq!(mux_delay_ms(None), 4000);
    assert_eq!(mux_delay_ms(Some("3".to_string())), 3000);
    assert_eq!(mux_delay_ms(Some("+2".to_string())), 2000);
    assert_eq!(mux_delay_ms(Some("0".to_string())), 0);
    assert_eq!(mux_delay_ms(Some("".to_string())), 4000);
    assert_eq!(mux_delay_ms(Some(" 3".to_string())), 4000);
    assert_eq!(mux_delay_ms(Some("-1".to_string())), 4000);
    assert_eq!(mux_delay_ms(Some("1.5".to_string())), 4000);
    assert_eq!(mux_delay_ms(Some("18446744073709551".to_string())), 18446744073709551000);
    assert_eq!(mux_delay_ms(Some("18446744073709552".to_string())), 4000);
    assert_eq!(mux_delay_ms(Some("18446744073709551616".to_string())), 4000);
}
