use tree_sketch::branch::Branch;
use tree_sketch::branch::DrawCmd;
use tree_sketch::shell::clear_color;
use tree_sketch::shell::App;

fn fresh_root() -> Branch {
    Branch::new(0, 0, 1)
}

fn accums(cmds: &[DrawCmd]) -> Vec<i64> {
    cmds.iter().map(|c| c.angle_accum).collect()
}

#[test]
fn from_samples_exact_fields() {
    let c = Branch::from_samples(9, 0, 1, 5, 100, 0);
    assert_eq!(c.angle_local, 8); // 9 / 3 + 5
    assert_eq!(c.angle_accum, -1900); // 0 - 2000 + 100
    assert_eq!(c.length, 38000); // 40000 + 0 - 2000 * 1
    assert_eq!(c.depth, 2);
    assert_eq!(c.weight, 3);
    assert_eq!(c.color, (0, 0, 0, 255));
    assert!(c.left.is_none());
    assert!(c.right.is_none());
}

#[test]
fn from_samples_deep_negative_length() {
    let c = Branch::from_samples(0, 0, 25, 0, 0, 0);
    assert_eq!(c.length, 40000 - 2000 * 25);
    assert!(c.length < 0);
}

#[test]
fn sampling_ranges_hold() {
    for _ in 0..200 {
        let c = fresh_root();
        assert!(0 <= c.angle_local && c.angle_local < 1000);
        assert!(-2000 <= c.angle_accum && c.angle_accum < 2000);
        assert!(38000 <= c.length && c.length < 58000);
        assert_eq!(c.depth, 2);
        assert_eq!(c.weight, 3);
        assert!(c.left.is_none());
        assert!(c.right.is_none());
    }
}

#[test]
fn child_sampling_ranges_hold() {
    for _ in 0..200 {
        let mut t = fresh_root();
        t.grow();
        let child = t.left.as_ref().expect("grow always fills the left child");
        assert!(t.angle_local / 3 <= child.angle_local);
        assert!(child.angle_local < t.angle_local / 3 + 1000);
        assert!(t.angle_accum - 2000 <= child.angle_accum);
        assert!(child.angle_accum < t.angle_accum + 2000);
        assert!(40000 - 2000 * t.depth <= child.length);
        assert!(child.length < 60000 - 2000 * t.depth);
        assert_eq!(child.depth, t.depth + 1);
        assert_eq!(child.weight, 3);
    }
}

#[test]
fn three_grows_make_a_left_spine_of_four() {
    let mut t = fresh_root();
    t.grow();
    t.grow();
    t.grow();
    let l1 = t.left.as_ref().expect("first left child");
    let l2 = l1.left.as_ref().expect("second left child");
    let l3 = l2.left.as_ref().expect("third left child");
    assert!(l3.left.is_none());
}

#[test]
fn weight_after_five_grows() {
    let mut t = fresh_root();
    for _ in 0..5 {
        t.grow();
    }
    assert_eq!(t.weight, 3 + 3 * 5);
}

#[test]
fn rotate_adds_to_every_accum() {
    let mut app = App::new();
    app.init();
    let before = accums(&app.render_list());
    app.tree.rotate(7);
    let after = accums(&app.render_list());
    assert_eq!(before.len(), after.len());
    for (b, a) in before.iter().zip(after.iter()) {
        assert_eq!(b + 7, *a);
    }
}

#[test]
fn rotate_round_trip_is_exact() {
    let mut app = App::new();
    app.init();
    let before = app.render_list();
    app.tree.rotate(5);
    app.tree.rotate(-5);
    let after = app.render_list();
    assert_eq!(before, after);
}

#[test]
fn right_child_probability_near_twelve_percent() {
    let trials = 100_000;
    let mut created = 0u64;
    for _ in 0..trials {
        let mut t = fresh_root();
        t.grow();
        if t.right.is_some() {
            created += 1;
        }
    }
    let fraction = created as f64 / trials as f64;
    assert!(
        0.10 < fraction && fraction < 0.14,
        "right-child creation fraction was {fraction}"
    );
}

#[test]
fn init_builds_left_spine_of_21() {
    let mut app = App::new();
    app.init();
    let mut node = &app.tree;
    let mut spine = 1u64;
    while let Some(l) = node.left.as_ref() {
        node = l;
        spine += 1;
    }
    assert_eq!(spine, 21);
    assert_eq!(app.tree.weight, 63);
}

#[test]
fn render_after_init_draws_at_least_21_segments() {
    let mut app = App::new();
    app.init();
    let cmds = app.render_list();
    assert!(cmds.len() >= 21);
    assert_eq!(cmds[0].parent, 0);
    assert_eq!(cmds[0].weight, 63);
    assert_eq!(cmds[0].color, (0, 0, 0, 255));
}

#[test]
fn draw_list_is_preorder_left_first() {
    let mut t = fresh_root();
    t.grow();
    // force a right child so the order is observable
    while t.right.is_none() {
        t = fresh_root();
        t.grow();
    }
    let cmds = t.draw_list();
    // root first, then the whole left subtree, then the right subtree
    assert_eq!(cmds[0].angle_accum, t.angle_accum);
    assert_eq!(cmds[0].parent, 0);
    let left = t.left.as_ref().expect("left child exists");
    assert_eq!(cmds[1].angle_local, left.angle_local);
    assert_eq!(cmds[1].parent, 0);
    let right = t.right.as_ref().expect("right child exists");
    let last = cmds.last().expect("list is never empty");
    assert_eq!(last.angle_local, right.angle_local);
    assert_eq!(last.parent, 0);
    assert_eq!(cmds.len(), 3);
}

#[test]
fn update_rotates_by_one_milliradian() {
    let mut app = App::new();
    app.init();
    let before = accums(&app.render_list());
    app.update();
    let after = accums(&app.render_list());
    for (b, a) in before.iter().zip(after.iter()) {
        assert_eq!(b + 1, *a);
    }
    assert_eq!(app.mousex, 600_000);
}

#[test]
fn cursor_move_rotates_by_displacement_over_100() {
    let mut app = App::new();
    app.init();
    let before = accums(&app.render_list());
    // 600 px -> 650 px: displacement -50_000 milli-pixels, delta -500
    app.on_cursor_move(650_000);
    assert_eq!(app.mousex, 650_000);
    let after = accums(&app.render_list());
    for (b, a) in before.iter().zip(after.iter()) {
        assert_eq!(b - 500, *a);
    }
}

#[test]
fn cursor_move_there_and_back_restores_angles() {
    let mut app = App::new();
    app.init();
    let before = app.render_list();
    app.on_cursor_move(650_000);
    app.on_cursor_move(600_000);
    let after = app.render_list();
    assert_eq!(before, after);
    assert_eq!(app.mousex, 600_000);
}

#[test]
fn mouse_press_resets_the_tree() {
    let mut app = App::new();
    app.init();
    app.update();
    app.init();
    assert_eq!(app.tree.weight, 63);
    assert_eq!(app.mousex, 600_000);
}

#[test]
fn canvas_clears_to_white() {
    assert_eq!(clear_color(), (255, 255, 255, 255));
}
