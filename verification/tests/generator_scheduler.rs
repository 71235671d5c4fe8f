use random_fractals::FractalType;
use random_fractals::params::{
    FractalParams, JULIA_CENTER_MAX, JULIA_CENTER_MIN, JULIA_CONST_MAX, JULIA_CONST_MIN,
    JULIA_DEFAULT_IM, JULIA_DEFAULT_RE, JULIA_SCALE_MAX, JULIA_SCALE_MIN, MANDEL_IM_MAX,
    MANDEL_IM_MIN, MANDEL_RE_MAX, MANDEL_RE_MIN, MANDEL_SCALE_MAX, MANDEL_SCALE_MIN,
    random_parameters,
};
use random_fractals::scheduler::Scheduler;

#[test]
fn random_parameters_respect_mandelbrot_bounds() {
    for _ in 0..10_000 {
        let p: FractalParams = random_parameters(FractalType::Mandelbrot);
        assert!(MANDEL_RE_MIN <= p.center_re && p.center_re <= MANDEL_RE_MAX);
        assert!(MANDEL_IM_MIN <= p.center_im && p.center_im <= MANDEL_IM_MAX);
        assert!(MANDEL_SCALE_MIN <= p.scale && p.scale <= MANDEL_SCALE_MAX);
        assert_eq!(p.julia_re, JULIA_DEFAULT_RE);
        assert_eq!(p.julia_im, JULIA_DEFAULT_IM);
    }
}

#[test]
fn random_parameters_respect_julia_bounds() {
    for _ in 0..10_000 {
        let p = random_parameters(FractalType::Julia);
        assert!(JULIA_CENTER_MIN <= p.center_re && p.center_re <= JULIA_CENTER_MAX);
        assert!(JULIA_CENTER_MIN <= p.center_im && p.center_im <= JULIA_CENTER_MAX);
        assert!(JULIA_SCALE_MIN <= p.scale && p.scale <= JULIA_SCALE_MAX);
        assert!(JULIA_CONST_MIN <= p.julia_re && p.julia_re <= JULIA_CONST_MAX);
        assert!(JULIA_CONST_MIN <= p.julia_im && p.julia_im <= JULIA_CONST_MAX);
    }
}

#[test]
fn default_params_are_the_classic_view() {
    let p = FractalParams::default();
    assert_eq!(p.center_re, 0);
    assert_eq!(p.center_im, 0);
    assert_eq!(p.scale, 3 * 0x1_0000_0000);
    assert_eq!(p.julia_re, JULIA_DEFAULT_RE);
    assert_eq!(p.julia_im, JULIA_DEFAULT_IM);
}

#[test]
fn default_settings_match_the_reference() {
    let mut s = random_fractals::params::Settings::default();
    assert_eq!(s.fractal_type, FractalType::Mandelbrot);
    assert_eq!(s.max_iter, 512);
    assert_eq!(s.refresh_ms, 10_000);
    assert!(MANDEL_SCALE_MIN <= s.params.scale && s.params.scale <= MANDEL_SCALE_MAX);
    s.fractal_type = FractalType::Julia;
    s.randomize_params();
    assert!(JULIA_SCALE_MIN <= s.params.scale && s.params.scale <= JULIA_SCALE_MAX);
}

#[test]
fn scheduler_start_render_stop_cycle() {
    let mut s = Scheduler::new(1000);
    assert!(!s.is_due(0));
    assert_eq!(s.next_due_at(), None);
    assert_eq!(s.last_render_duration_ms(), None);

    s.start(5000);
    assert!(s.is_due(5000));
    assert!(!s.is_due(4999));
    assert_eq!(s.next_due_at(), Some(5000));

    // a render that started at 5000 and took 7 ms arms t0 + 1000
    s.mark_rendered(5000, 7);
    assert_eq!(s.next_due_at(), Some(6000));
    assert_eq!(s.last_render_duration_ms(), Some(7));
    assert!(!s.is_due(5999));
    assert!(s.is_due(6000));
    assert_eq!(s.millis_until_due(5400), Some(600));
    assert_eq!(s.millis_until_due(6500), Some(0));

    s.stop();
    assert!(!s.is_due(10_000));
    assert_eq!(s.next_due_at(), None);
    assert_eq!(s.millis_until_due(10_000), None);
}

#[test]
fn scheduler_zero_interval_is_immediately_due_again() {
    let mut s = Scheduler::new(0);
    s.start(100);
    s.mark_rendered(100, 3);
    assert!(s.is_due(100));
}
