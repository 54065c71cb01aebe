use odonata_present::camera::{Depth, ScreenSpace, Transform};
use odonata_present::intro::{intro_script, Anim, IntroAction, IntroPlugin, IntroState};

const MS: u64 = 1_000_000;

fn anim(duration: u64, x: i32, tag: u8, sound: Option<&'static str>) -> Anim<&'static str> {
    Anim { duration, transform: Transform::from_xyz(x, 0, Depth::Level(0)), image: vec![tag], sound }
}

fn shown(a: IntroAction<&'static str>) -> Option<(usize, u8, u64)> {
    match a {
        IntroAction::Show(n, a, _) => Some((n, a.image[0], a.duration)),
        _ => None,
    }
}

#[test]
fn intro_plays_last_declared_first() {
    let frames = vec![anim(300 * MS, 1, b'A', None), anim(200 * MS, 2, b'B', Some("b")), anim(100 * MS, 3, b'C', Some("c"))];
    let mut st = IntroState::new(frames);
    // The first update shows C at once.
    assert_eq!(shown(IntroPlugin::update(&mut st, 16 * MS)), Some((0, b'C', 100 * MS)));
    // C stays for its 100 ms.
    assert!(matches!(IntroPlugin::update(&mut st, 99 * MS), IntroAction::Wait));
    assert_eq!(shown(IntroPlugin::update(&mut st, MS)), Some((1, b'B', 200 * MS)));
    assert!(matches!(IntroPlugin::update(&mut st, 150 * MS), IntroAction::Wait));
    let b = IntroPlugin::update(&mut st, 50 * MS);
    match b {
        IntroAction::Show(n, a, tag) => {
            assert_eq!(tag, ScreenSpace);
            assert_eq!(n, 2);
            assert_eq!(a.image, vec![b'A']);
            assert_eq!(a.sound, None);
            assert_eq!(a.transform.x, 1);
        }
        _ => panic!("expected A"),
    }
    // The title comes only after A's 300 ms.
    assert!(matches!(IntroPlugin::update(&mut st, 299 * MS), IntroAction::Wait));
    assert!(matches!(IntroPlugin::update(&mut st, MS), IntroAction::Finish));
    // And only once.
    assert!(matches!(IntroPlugin::update(&mut st, SECOND_MS), IntroAction::Wait));
    assert_eq!(IntroPlugin::exit(st), vec![0, 1, 2]);
}

const SECOND_MS: u64 = 1000 * MS;

#[test]
fn intro_exit_midway_removes_what_was_shown() {
    let frames = vec![anim(300 * MS, 1, b'A', None), anim(200 * MS, 2, b'B', None), anim(100 * MS, 3, b'C', None)];
    let mut st = IntroState::new(frames);
    assert_eq!(shown(IntroPlugin::update(&mut st, 16 * MS)), Some((0, b'C', 100 * MS)));
    assert!(matches!(IntroPlugin::update(&mut st, 16 * MS), IntroAction::Wait));
    assert_eq!(IntroPlugin::exit(st), vec![0]);
}

#[test]
fn intro_exit_before_any_update_removes_nothing() {
    let st = IntroState::new(vec![anim(MS, 0, 1, None)]);
    assert_eq!(IntroPlugin::exit(st), Vec::<usize>::new());
}

#[test]
fn empty_intro_goes_to_title_at_once() {
    let mut st: IntroState<&'static str> = IntroState::new(Vec::new());
    assert!(matches!(IntroPlugin::update(&mut st, 0), IntroAction::Finish));
    assert!(matches!(IntroPlugin::update(&mut st, 0), IntroAction::Wait));
}

#[test]
fn authored_intro_layout() {
    let s = intro_script(256);
    assert_eq!(s.len(), 8);
    assert_eq!((s[0].duration, s[0].x, s[0].y), (2000 * MS, 218, 140));
    assert_eq!(s[0].image, "images/logo-y.png");
    assert_eq!(s[0].sound, Some("sfx/blip7.ogg"));
    assert_eq!((s[3].duration, s[3].x, s[3].y), (150 * MS, 108, 140));
    assert_eq!((s[6].duration, s[6].x, s[6].y), (200 * MS, 8, 140));
    assert_eq!((s[7].duration, s[7].x, s[7].y), (500 * MS, 88, 50));
    assert_eq!(s[7].image, "images/logo.png");
    assert_eq!(s[7].sound, None);
}

#[test]
fn authored_intro_plays_logo_first() {
    let frames: Vec<Anim<&'static str>> = intro_script(256)
        .into_iter()
        .map(|a| Anim::from_spec(&a, a.image.as_bytes().to_vec(), a.sound))
        .collect();
    let mut st = IntroState::new(frames);
    match IntroPlugin::update(&mut st, 16 * MS) {
        IntroAction::Show(0, a, _) => {
            assert_eq!(a.image, b"images/logo.png".to_vec());
            assert_eq!((a.transform.x, a.transform.y), (88, 50));
        }
        _ => panic!("expected the logo"),
    }
    match IntroPlugin::update(&mut st, 500 * MS) {
        IntroAction::Show(1, a, _) => assert_eq!(a.sound, Some("sfx/blip1.ogg")),
        _ => panic!("expected the b"),
    }
}

#[test]
fn loaded_step_keeps_authored_placement() {
    let s = intro_script(100);
    let a: Anim<u32> = Anim::from_spec(&s[1], vec![7, 8], Some(6));
    assert_eq!(a.duration, 500 * MS);
    assert_eq!(a.transform, Transform::from_xyz(100, 140, Depth::Level(0)));
    assert_eq!(a.image, vec![7, 8]);
    assert_eq!(a.sound, Some(6));
}
