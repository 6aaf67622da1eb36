use logger::log::A_LEVEL;
use logger::log::D_LEVEL;
use logger::log::E_LEVEL;
use logger::log::F_LEVEL;
use logger::log::I_LEVEL;
use logger::log::Logger;
use logger::log::N_LEVEL;
use logger::log::T_LEVEL;
use logger::log::W_LEVEL;
use logger::log::can_log;
use logger::log::dump;
use logger::log::is_stdout;
use logger::log::level_flag;
use logger::log::set_filepath;
use logger::log::set_level;
use logger::log::set_size;

const LEVELS: [u8; 6] = [T_LEVEL, D_LEVEL, I_LEVEL, W_LEVEL, E_LEVEL, F_LEVEL];

#[test]
fn defaults() {
    let lg = Logger::new();
    assert!(is_stdout(&lg));
    for l in LEVELS {
        assert!(can_log(&lg, l));
    }
    assert_eq!(dump(&lg), "Logger { filepath: \"\", level: 63, size: 10485760 }");
}

#[test]
fn emit_iff_mask_includes_level() {
    let mut masks: Vec<u8> = vec![N_LEVEL, A_LEVEL];
    masks.extend(LEVELS);
    for m in masks {
        let mut lg = Logger::new();
        set_level(&mut lg, m);
        for l in LEVELS {
            assert_eq!(can_log(&lg, l), m & l != 0);
        }
    }
}

#[test]
fn level_flags_known() {
    assert_eq!(level_flag(T_LEVEL), 'T');
    assert_eq!(level_flag(D_LEVEL), 'D');
    assert_eq!(level_flag(I_LEVEL), 'I');
    assert_eq!(level_flag(W_LEVEL), 'W');
    assert_eq!(level_flag(E_LEVEL), 'E');
    assert_eq!(level_flag(F_LEVEL), 'F');
}

#[test]
fn level_flag_unknown_is_u() {
    for bits in [0u8, 3, 5, 20, 63, 64, 128, 255] {
        assert_eq!(level_flag(bits), 'U');
    }
}

#[test]
fn set_level_twice_behaves_as_once() {
    let mut once = Logger::new();
    set_level(&mut once, 20);
    let mut twice = Logger::new();
    set_level(&mut twice, 20);
    set_level(&mut twice, 20);
    for l in LEVELS {
        assert_eq!(can_log(&once, l), can_log(&twice, l));
    }
    assert_eq!(dump(&once), dump(&twice));
}

#[test]
fn setters_replace_one_field() {
    let mut lg = Logger::new();
    set_filepath(&mut lg, "/tmp/test.log".to_string());
    assert!(!is_stdout(&lg));
    set_size(&mut lg, 100);
    set_level(&mut lg, N_LEVEL);
    assert_eq!(dump(&lg), "Logger { filepath: \"/tmp/test.log\", level: 0, size: 100 }");
    set_filepath(&mut lg, String::new());
    assert!(is_stdout(&lg));
}
