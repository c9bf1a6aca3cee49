use vaelix::ipc::VXChan as ByteChan;
use vaelix::vegagx::VegaGX;
use vaelix::vxanim::VXAnim;
use vaelix::vxde::VXDE;
use vaelix::vxfont::VXFont;
use vaelix::vxnotification::VXNotification;
use vaelix::vxui_toolkit::VXUIToolkit;
use vaelix::vxwall::VXWall;
use vaelix::vxtheme::{Theme, VXTheme};
use vaelix::vxwin::VXWin;

#[test]
fn vegagx_window_lifecycle() {
    let gx = VegaGX::new();
    let mut gx = gx;
    gx.create_window(1, String::from("terminal"), (640, 480), (10, 20));
    gx.create_window(2, String::from("editor"), (800, 600), (0, 0));
    let w = gx.get_window(1).unwrap();
    assert_eq!(w.title, "terminal");
    assert_eq!(w.size, (640, 480));
    assert_eq!(w.position, (10, 20));
    // Creating the same id again replaces the window.
    gx.create_window(1, String::from("console"), (320, 200), (5, 5));
    assert_eq!(gx.get_window(1).unwrap().title, "console");
    assert_eq!(gx.windows.len(), 2);
    gx.destroy_window(1);
    assert!(gx.get_window(1).is_none());
    assert!(gx.get_window(2).is_some());
    // Destroying an unknown id is a no-op.
    gx.destroy_window(99);
    assert_eq!(gx.windows.len(), 1);
}

#[test]
fn vxwin_updates_content() {
    let mut win = VXWin::new();
    win.create_window(7, String::from("about"), (300, 200), (50, 50), String::from("hello"));
    win.update_window(7, String::from("goodbye"));
    assert_eq!(win.get_window(7).unwrap().content, "goodbye");
    // Updating an unknown window changes nothing.
    win.update_window(8, String::from("nothing"));
    assert!(win.get_window(8).is_none());
}

#[test]
fn vxwall_rules_come_and_go() {
    let mut wall = VXWall::new();
    wall.add_rule(
        String::from("r1"),
        String::from("deny"),
        String::from("tcp"),
        String::from("0.0.0.0/0"),
        String::from("10.0.0.1"),
    );
    let rule = wall.get_rule(&String::from("r1")).unwrap();
    assert_eq!(rule.action, "deny");
    assert_eq!(rule.protocol, "tcp");
    wall.add_rule(
        String::from("r1"),
        String::from("allow"),
        String::from("udp"),
        String::from("192.168.0.0/16"),
        String::from("10.0.0.2"),
    );
    assert_eq!(wall.get_rule(&String::from("r1")).unwrap().action, "allow");
    assert_eq!(wall.rules.len(), 1);
    wall.remove_rule(&String::from("r1"));
    assert!(wall.get_rule(&String::from("r1")).is_none());
}

#[test]
fn vxde_sessions_terminate() {
    let mut de = VXDE::new();
    de.create_session(String::from("s1"), String::from("alice"));
    assert_eq!(de.get_session(&String::from("s1")).unwrap().status, "active");
    de.terminate_session(&String::from("s1"));
    let s = de.get_session(&String::from("s1")).unwrap();
    assert_eq!(s.status, "terminated");
    assert_eq!(s.user, "alice");
    de.terminate_session(&String::from("missing"));
    assert!(de.get_session(&String::from("missing")).is_none());
}

#[test]
fn vxnotification_lifecycle() {
    let mut notes = VXNotification::new();
    notes.create_notification(String::from("n1"), String::from("battery low"), 42);
    let n = notes.get_notification(&String::from("n1")).unwrap();
    assert_eq!(n.message, "battery low");
    assert_eq!(n.timestamp, 42);
    notes.remove_notification(&String::from("n1"));
    assert!(notes.get_notification(&String::from("n1")).is_none());
}

#[test]
fn vxfont_stores_data() {
    let mut fonts = VXFont::new();
    fonts.load_font(String::from("mono"), 12, vec![0xDE, 0xAD]);
    let f = fonts.get_font(&String::from("mono")).unwrap();
    assert_eq!(f.size, 12);
    assert_eq!(f.data, vec![0xDE, 0xAD]);
    assert!(fonts.get_font(&String::from("serif")).is_none());
}

#[test]
fn vxanim_updates_properties() {
    let mut anims = VXAnim::new();
    anims.create_animation(
        String::from("fade"),
        250,
        vec![(String::from("opacity"), String::from("0"))],
    );
    anims.update_animation(
        &String::from("fade"),
        vec![(String::from("opacity"), String::from("1"))],
    );
    let a = anims.get_animation(&String::from("fade")).unwrap();
    assert_eq!(a.duration, 250);
    assert_eq!(a.properties[0].1, "1");
}

#[test]
fn vxui_toolkit_widgets() {
    let mut ui = VXUIToolkit::new();
    ui.create_widget(
        String::from("ok"),
        String::from("button"),
        vec![(String::from("label"), String::from("OK"))],
    );
    ui.update_widget(
        &String::from("ok"),
        vec![(String::from("label"), String::from("Done"))],
    );
    let w = ui.get_widget(&String::from("ok")).unwrap();
    assert_eq!(w.kind, "button");
    assert_eq!(w.properties[0].1, "Done");
}

#[test]
fn ipc_channels_accumulate_bytes() {
    let mut chan = ByteChan::new();
    assert!(chan.receive(&String::from("logs")).is_none());
    chan.send(&String::from("logs"), &vec![1, 2]);
    chan.send(&String::from("logs"), &vec![3]);
    assert_eq!(chan.channels.len(), 1);
    assert_eq!(chan.channels[0].data, vec![1, 2, 3]);
    // receive hands back a drained copy; the channel keeps its bytes.
    assert_eq!(chan.receive(&String::from("logs")), Some(vec![]));
}

#[test]
fn vxtheme_defaults_and_loads() {
    let mut themes = VXTheme::new();
    let t = themes.get_theme();
    assert_eq!(t.primary_color, "#007bff");
    assert_eq!(t.secondary_color, "#6c757d");
    assert_eq!(t.font_family, "Arial, sans-serif");
    themes.load_theme(Theme {
        primary_color: String::from("#222222"),
        secondary_color: String::from("#eeeeee"),
        font_family: String::from("monospace"),
    });
    assert_eq!(themes.get_theme().primary_color, "#222222");
}
