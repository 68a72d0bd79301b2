use fractal::{
    get_mandelbrot_params, get_params, BlackWhite, Canvas, ColorArgs, FractalType, HSVColor,
    PassStatus, DENSITY_TRIALS, MAX_ITERATIONS,
};

#[test]
fn mandelbrot_params_start_with_zoom() {
    let params = get_mandelbrot_params();
    assert_eq!(params.max_iterations(), 40);
    assert!(params.support_zoom());
}

#[test]
fn buddahbrot_params_disable_zoom() {
    let params = get_params(&FractalType::Buddahbrot);
    assert_eq!(params.max_iterations(), MAX_ITERATIONS);
    assert!(!params.support_zoom());
    assert!(get_params(&FractalType::Mandelbrot).support_zoom());
}

#[test]
fn increase_iterations_doubles() {
    let mut params = get_mandelbrot_params();
    params.increase_iterations();
    assert_eq!(params.max_iterations(), 80);
    params.increase_iterations();
    assert_eq!(params.max_iterations(), 160);
}

#[test]
fn decrease_iterations_halves() {
    let mut params = get_mandelbrot_params();
    params.decrease_iterations();
    assert_eq!(params.max_iterations(), 20);
    params.decrease_iterations();
    assert_eq!(params.max_iterations(), 10);
}

#[test]
fn decrease_iterations_never_below_ten() {
    let mut params = get_params(&FractalType::Buddahbrot);
    for _ in 0..20 {
        params.decrease_iterations();
        assert!(params.max_iterations() >= 10);
    }
    assert_eq!(params.max_iterations(), 10);
    params.increase_iterations();
    assert_eq!(params.max_iterations(), 20);
}

#[test]
fn resized_canvas_reads_zero() {
    let mut canvas = Canvas::new(4, 3);
    canvas.accumulate(0, &vec![(0, 0), (3, 2)]);
    canvas.resize(5, 2);
    assert_eq!(canvas.dimensions(), (5, 2));
    for y in 0..2 {
        for x in 0..5 {
            assert_eq!(canvas.get_pixel_iterations(x, y), 0);
        }
    }
}

#[test]
fn resize_bumps_generation() {
    let mut canvas = Canvas::new(2, 2);
    assert_eq!(canvas.generation(), 0);
    canvas.resize(3, 3);
    canvas.resize(3, 3);
    assert_eq!(canvas.generation(), 2);
}

#[test]
fn stale_accumulation_is_aborted() {
    let mut canvas = Canvas::new(2, 2);
    let generation = canvas.generation();
    canvas.resize(2, 2);
    assert_eq!(canvas.accumulate(generation, &vec![(0, 0)]), PassStatus::Aborted);
    assert_eq!(canvas.get_pixel_iterations(0, 0), 0);
    assert_eq!(canvas.accumulate(canvas.generation(), &vec![(0, 0)]), PassStatus::Completed);
    assert_eq!(canvas.get_pixel_iterations(0, 0), 1);
}

#[test]
fn stale_row_is_aborted() {
    let mut canvas = Canvas::new(2, 2);
    let generation = canvas.generation();
    assert_eq!(canvas.store_row(generation, 1, &vec![7, 8]), PassStatus::Completed);
    assert_eq!(canvas.image().iterations(), &[0, 0, 7, 8][..]);
    canvas.resize(3, 1);
    assert_eq!(canvas.store_row(generation, 1, &vec![7, 8]), PassStatus::Aborted);
    assert_eq!(canvas.image().iterations(), &[0, 0, 0][..]);
}

#[test]
fn sampled_pixels_lie_in_grid() {
    let canvas = Canvas::new(3, 2);
    let mut rng = rand::thread_rng();
    let samples = canvas.sample_pixels(&mut rng, 1000);
    assert_eq!(samples.len(), 1000);
    assert!(samples.iter().all(|&(x, y)| x < 3 && y < 2));
    assert!(samples.iter().any(|&(x, _)| x == 2));
    assert!(samples.iter().any(|&(_, y)| y == 1));
}

#[test]
fn full_pass_draws_every_trial() {
    let canvas = Canvas::new(640, 480);
    let mut rng = rand::thread_rng();
    assert_eq!(canvas.sample_pixels(&mut rng, DENSITY_TRIALS).len(), 100000);
}

#[test]
fn empty_canvas_gives_no_sample() {
    let canvas = Canvas::new(0, 4);
    let mut rng = rand::thread_rng();
    assert!(canvas.sample_pixels(&mut rng, 10).is_empty());
    let canvas = Canvas::new(4, 0);
    assert!(canvas.sample_pixels(&mut rng, 10).is_empty());
}

#[test]
fn color_args_escaped() {
    assert!(ColorArgs::new(3, 40).escaped());
    assert!(!ColorArgs::new(40, 40).escaped());
    let args = ColorArgs::new(0, 150);
    assert_eq!(args.iterations, 0);
    assert_eq!(args.max_iterations, 150);
}

#[test]
fn color_models_keep_budget() {
    assert_eq!(BlackWhite::new().max_iterations(), 40);
    assert_eq!(BlackWhite::new_with_max_iterations(150).max_iterations(), 150);
    assert_eq!(HSVColor::new().max_iterations(), 40);
    assert_eq!(HSVColor::new_with_max_iterations(100).max_iterations(), 100);
}
