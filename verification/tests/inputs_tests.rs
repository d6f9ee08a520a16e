use phr_rpcem::controls::analogout::AnalogOutput;
use phr_rpcem::flash::{flash_uid, unique_id_from_micros};
use phr_rpcem::tasks::history::KnobHistory;
use phr_rpcem::tasks::inputs::{
    average_adc_block, core1_task_step, inputs_changed, inputs_display_task_step, inputs_task_step,
    inverted_knob, knob_to_pwm_value, level_sign, ButtonLevel, InputsSnapshot,
};

#[test]
fn knob_scaling() {
    assert_eq!(knob_to_pwm_value(0), 250);
    assert_eq!(knob_to_pwm_value(4095), 1);
    assert_eq!(knob_to_pwm_value(2048), 125);
    assert_eq!(knob_to_pwm_value(100), 244);
    assert_eq!(inverted_knob(4000), 96);
    assert_eq!(inverted_knob(4096), 0);
}

#[test]
fn button_signs() {
    assert_eq!(level_sign(ButtonLevel::High), "+");
    assert_eq!(level_sign(ButtonLevel::Low), "-");
}

#[test]
fn inputs_task_frequency_when_button_low() {
    assert_eq!(inputs_task_step(100, 200, ButtonLevel::Low), (244, 238, Some(3996)));
    assert_eq!(inputs_task_step(100, 200, ButtonLevel::High), (244, 238, None));
}

#[test]
fn adc_block_running_average() {
    let avg = average_adc_block([0, 0, 0], &[100, 200, 300, 100, 200, 300]);
    assert_eq!(avg, [75, 150, 225]);
    assert_eq!(average_adc_block([7, 8, 9], &[]), [7, 8, 9]);
    let avg = average_adc_block([4095, 0, 1], &[4095, 4095, 1]);
    assert_eq!(avg, [4095, 2047, 1]);
}

#[test]
fn display_step_redraws_on_change_only() {
    let mut prev = InputsSnapshot::new();
    let cur = InputsSnapshot { ain: 10, kn1: 100, kn2: 4096, btn1: ButtonLevel::High, btn2: ButtonLevel::Low };
    assert!(inputs_changed(&prev, &cur));
    let u = inputs_display_task_step(&mut prev, cur);
    assert_eq!(u.out1_value, 244);
    assert_eq!(u.out2_value, 0);
    let s = u.status.expect("changed inputs are shown");
    assert_eq!((s.ain, s.btn1, s.kn1, s.btn2, s.kn2), (10, "+", 3996, "-", 0));
    assert_eq!(prev, cur);
    let u = inputs_display_task_step(&mut prev, cur);
    assert!(u.status.is_none());
    assert_eq!(u.out1_value, 244);
}

#[test]
fn knob_history_average_of_last_ten() {
    let mut h = KnobHistory::new();
    assert_eq!(h.len(), 0);
    h.write(5);
    assert_eq!(h.average(), 5);
    for v in 1..=12u16 {
        h.write(v);
    }
    assert_eq!(h.len(), 10);
    // 3 + 4 + ... + 12 = 75
    assert_eq!(h.average(), 7);
}

#[test]
fn core1_step_smooths_knobs() {
    let mut prev = InputsSnapshot::new();
    let mut h1 = KnobHistory::new();
    let mut h2 = KnobHistory::new();
    let u = core1_task_step(&mut prev, &mut h1, &mut h2, 1, 100, 300, ButtonLevel::Low, ButtonLevel::Low);
    assert_eq!(u.out1_value, 244);
    assert_eq!(prev, InputsSnapshot { ain: 1, kn1: 100, kn2: 300, btn1: ButtonLevel::Low, btn2: ButtonLevel::Low });
    let s = u.status.unwrap();
    assert_eq!((s.kn1, s.kn2), (3996, 3796));
    let u = core1_task_step(&mut prev, &mut h1, &mut h2, 1, 200, 300, ButtonLevel::Low, ButtonLevel::Low);
    assert_eq!(prev.kn1, 150);
    assert_eq!(u.out1_value, 238);
    assert_eq!(u.status.unwrap().kn1, 3896);
    let u = core1_task_step(&mut prev, &mut h1, &mut h2, 1, 150, 300, ButtonLevel::Low, ButtonLevel::Low);
    assert!(u.status.is_none());
}

#[test]
fn analog_output_duty_changes() {
    let mut out = AnalogOutput::new(150);
    assert_eq!(out.duty_cycle_percent(), 100);
    assert_eq!(out.set_duty_cycle_percent(200), None);
    assert_eq!(out.set_duty_cycle_percent(50), Some(50));
    assert_eq!(out.set_duty_cycle_percent(50), None);
    assert_eq!(out.duty_cycle_percent(), 50);
    assert_eq!(AnalogOutput::new(25).duty_cycle_percent(), 25);
}

#[test]
fn flash_fallback_id_from_micros() {
    let bytes = unique_id_from_micros(0x0102030405060708);
    assert_eq!(bytes, [8, 7, 6, 5, 4, 3, 2, 1]);
    let uid = flash_uid(bytes);
    assert!(uid == 0x0102030405060708 || uid == 0x0807060504030201);
    let uid = flash_uid([1, 0, 0, 0, 0, 0, 0, 0]);
    assert!(uid == 1 || uid == 1 << 56);
}
