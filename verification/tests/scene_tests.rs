use rand::rngs::StdRng;
use rand::SeedableRng;
use venn_deduction::attributes::{VennColor, VennShape, VennSize, VennTarget};
use venn_deduction::geometry::Point;
use venn_deduction::guess::{VennGuess, Verdict, GUESS_RADIUS, MAX_TRAY_INDEX, ROW_HEIGHT, TRAY_X};
use venn_deduction::palette::{Hue, Paint};
use venn_deduction::scene::{DragState, Venn, DRAWS_PER_PUZZLE};
use venn_deduction::zones::VennCircle;

fn target(shape: VennShape, color: VennColor, size: VennSize) -> VennTarget {
    VennTarget { color, shape, size }
}

#[test]
fn new_guess_sits_in_its_row() {
    let guess = VennGuess::new(0, VennShape::Square, VennColor::Purple, VennSize::Medium);
    assert_eq!(guess.center, Point { x: 20, y: 40 });
    assert_eq!(guess.radius, 30);
    assert!(!guess.dragged);
    assert_eq!(guess.verdict, Verdict::Unset);
    assert_eq!(guess.target, target(VennShape::Square, VennColor::Purple, VennSize::Medium));
    let later = VennGuess::new(8, VennShape::Circle, VennColor::Blue, VennSize::Small);
    assert_eq!(later.center, Point { x: 20, y: 360 });
    assert_eq!((TRAY_X, ROW_HEIGHT, GUESS_RADIUS), (20, 40, 30));
}

#[test]
fn new_guess_at_the_last_representable_row() {
    let guess = VennGuess::new(MAX_TRAY_INDEX, VennShape::Circle, VennColor::Blue, VennSize::Small);
    assert_eq!(guess.center.y, 2_147_483_640);
}

#[test]
fn guess_contains_is_strict() {
    let guess = VennGuess::new(0, VennShape::Circle, VennColor::Blue, VennSize::Small);
    assert!(guess.contains(&Point { x: 20, y: 40 }));
    assert!(guess.contains(&Point { x: 49, y: 40 }));
    assert!(!guess.contains(&Point { x: 50, y: 40 }));
    assert!(!guess.contains(&Point { x: 38, y: 64 }));
    assert!(guess.contains(&Point { x: 38, y: 63 }));
}

#[test]
fn drag_to_moves_and_marks() {
    let mut guess = VennGuess::new(2, VennShape::Circle, VennColor::Blue, VennSize::Small);
    guess.verdict = Verdict::Mismatch;
    guess.drag_to(&Point { x: 300, y: 200 });
    assert!(guess.dragged);
    assert_eq!(guess.center, Point { x: 300, y: 200 });
    assert_eq!(guess.verdict, Verdict::Mismatch);
    assert_eq!(guess.radius, 30);
}

#[test]
fn default_circle() {
    let circle = VennCircle::default();
    assert_eq!(circle.center, Point { x: 0, y: 0 });
    assert_eq!(circle.radius, 1);
    assert_eq!(circle.color, Paint { hue: Hue::Black, opacity: 10 });
    assert!(!circle.highlighted);
    assert_eq!(circle.answer.center, Point { x: 0, y: 0 });
    assert_eq!((circle.answer.width, circle.answer.height), (40, 30));
    assert!(!circle.answer.hover);
    let large_blue_circle = target(VennShape::Circle, VennColor::Blue, VennSize::Large);
    assert_eq!(circle.target, large_blue_circle);
    assert_eq!(circle.answer.target, large_blue_circle);
}

#[test]
fn generated_puzzle_layout() {
    let a = target(VennShape::Circle, VennColor::Yellow, VennSize::Small);
    let b = target(VennShape::Square, VennColor::Blue, VennSize::Medium);
    let c = target(VennShape::Triangle, VennColor::Purple, VennSize::Large);
    let d = target(VennShape::Circle, VennColor::Purple, VennSize::Medium);
    let scene = Venn::with_targets(a, b, c, d);
    assert_eq!(scene.left.center, Point { x: 270, y: 300 });
    assert_eq!(scene.right.center, Point { x: 530, y: 300 });
    assert_eq!(scene.left.radius, 200);
    assert_eq!(scene.right.radius, 200);
    assert_eq!(scene.left.color, Paint { hue: Hue::Blue, opacity: 10 });
    assert_eq!(scene.right.color, Paint { hue: Hue::Yellow, opacity: 10 });
    assert_eq!(scene.left.answer.center, Point { x: 270, y: 45 });
    assert_eq!(scene.right.answer.center, Point { x: 530, y: 45 });
    assert_eq!((scene.left.answer.width, scene.left.answer.height), (100, 80));
    assert_eq!((scene.right.answer.width, scene.right.answer.height), (100, 80));
    assert_eq!(scene.left.target, a);
    assert_eq!(scene.right.target, b);
    assert_eq!(scene.left.answer.target, c);
    assert_eq!(scene.right.answer.target, d);
    assert!(!scene.left.highlighted && !scene.right.highlighted);
    assert!(!scene.left.answer.hover && !scene.right.answer.hover);
    assert_eq!(scene.drag, DragState::Idle);
    assert!(scene.check_wf());
}

#[test]
fn generated_tray_is_the_product_of_shapes_and_colors() {
    let any = target(VennShape::Circle, VennColor::Yellow, VennSize::Small);
    let scene = Venn::with_targets(any, any, any, any);
    assert_eq!(scene.shapes.len(), 9);
    let mut place = 0;
    for shape in VennShape::all() {
        for color in VennColor::all() {
            let guess = scene.shapes[place];
            assert_eq!(guess.target, target(shape, color, VennSize::Small));
            assert_eq!(guess.center, Point { x: 20, y: 40 * (place as i32 + 1) });
            assert_eq!(guess.radius, 30);
            assert!(!guess.dragged);
            assert_eq!(guess.verdict, Verdict::Unset);
            place += 1;
        }
    }
    assert_eq!(scene.shapes[1].target, target(VennShape::Circle, VennColor::Blue, VennSize::Small));
    assert_eq!(scene.shapes[3].target, target(VennShape::Square, VennColor::Yellow, VennSize::Small));
    assert_eq!(scene.shapes[8].target, target(VennShape::Triangle, VennColor::Purple, VennSize::Small));
}

#[test]
fn from_draws_uses_three_draws_per_target() {
    assert_eq!(DRAWS_PER_PUZZLE, 12);
    let scene = Venn::from_draws(&[0, 1, 2, 1, 2, 0, 2, 0, 1, 0, 0, 0]);
    assert_eq!(scene.left.target, target(VennShape::Circle, VennColor::Purple, VennSize::Medium));
    assert_eq!(scene.right.target, target(VennShape::Square, VennColor::Yellow, VennSize::Large));
    assert_eq!(
        scene.left.answer.target,
        target(VennShape::Triangle, VennColor::Blue, VennSize::Small)
    );
    assert_eq!(
        scene.right.answer.target,
        target(VennShape::Circle, VennColor::Yellow, VennSize::Small)
    );
    assert!(scene.check_wf());
}

#[test]
fn from_draws_equals_with_targets() {
    let scene = Venn::from_draws(&[2, 2, 2, 1, 1, 1, 0, 0, 0, 2, 1, 0]);
    let expected = Venn::with_targets(
        target(VennShape::Triangle, VennColor::Purple, VennSize::Large),
        target(VennShape::Square, VennColor::Blue, VennSize::Medium),
        target(VennShape::Circle, VennColor::Yellow, VennSize::Small),
        target(VennShape::Triangle, VennColor::Yellow, VennSize::Medium),
    );
    assert_eq!(scene, expected);
}

#[test]
fn same_draws_give_the_same_puzzle() {
    let draws = [1, 0, 2, 2, 1, 0, 0, 0, 1, 2, 2, 2];
    let first = Venn::from_draws(&draws);
    let second = Venn::from_draws(&draws);
    assert_eq!(first.left.target, second.left.target);
    assert_eq!(first.right.target, second.right.target);
    assert_eq!(first, second);
}

#[test]
fn same_seed_gives_the_same_puzzle() {
    for seed in 0..20u64 {
        let first = Venn::load(&mut StdRng::seed_from_u64(seed));
        let second = Venn::load(&mut StdRng::seed_from_u64(seed));
        assert_eq!(first.left.target, second.left.target);
        assert_eq!(first.right.target, second.right.target);
        assert_eq!(first, second);
    }
}

#[test]
fn load_draws_only_the_targets() {
    let scene = Venn::load(&mut StdRng::seed_from_u64(99));
    let expected = Venn::with_targets(
        scene.left.target,
        scene.right.target,
        scene.left.answer.target,
        scene.right.answer.target,
    );
    assert_eq!(scene, expected);
    assert!(scene.check_wf());
}

#[test]
fn load_draws_regions_first_and_shape_size_color_in_turn() {
    let scene = Venn::load(&mut StdRng::seed_from_u64(5));
    let mut rng = StdRng::seed_from_u64(5);
    let mut drawn = Vec::new();
    for _ in 0..4 {
        let shape = VennShape::random(&mut rng);
        let size = VennSize::random(&mut rng);
        let color = VennColor::random(&mut rng);
        drawn.push(target(shape, color, size));
    }
    assert_eq!(scene.left.target, drawn[0]);
    assert_eq!(scene.right.target, drawn[1]);
    assert_eq!(scene.left.answer.target, drawn[2]);
    assert_eq!(scene.right.answer.target, drawn[3]);
}

#[test]
fn target_random_draws_shape_size_color_in_turn() {
    let mut one = StdRng::seed_from_u64(11);
    let mut other = StdRng::seed_from_u64(11);
    for _ in 0..10 {
        let drawn = VennTarget::random(&mut one);
        let shape = VennShape::random(&mut other);
        let size = VennSize::random(&mut other);
        let color = VennColor::random(&mut other);
        assert_eq!(drawn, target(shape, color, size));
    }
}

#[test]
fn random_reaches_every_value() {
    let mut rng = StdRng::seed_from_u64(2024);
    let mut shapes = [0usize; 3];
    let mut colors = [0usize; 3];
    let mut sizes = [0usize; 3];
    for _ in 0..300 {
        let shape = VennShape::random(&mut rng);
        shapes[VennShape::all().iter().position(|s| *s == shape).unwrap()] += 1;
        let color = VennColor::random(&mut rng);
        colors[VennColor::all().iter().position(|c| *c == color).unwrap()] += 1;
        let size = VennSize::random(&mut rng);
        sizes[VennSize::all().iter().position(|s| *s == size).unwrap()] += 1;
    }
    for counts in [shapes, colors, sizes] {
        assert_eq!(counts.iter().sum::<usize>(), 300);
        for count in counts {
            assert!(count >= 60, "a value came out only {} times in 300", count);
        }
    }
}

#[test]
fn different_seeds_give_different_puzzles() {
    let first = Venn::load(&mut StdRng::seed_from_u64(0));
    let mut differs = false;
    for seed in 1..20u64 {
        if Venn::load(&mut StdRng::seed_from_u64(seed)) != first {
            differs = true;
        }
    }
    assert!(differs);
}
