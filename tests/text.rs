use typing_tutor::components::{BadgeVariant, ButtonVariant, TabsVariant};
use typing_tutor::text::{decimal_string, format_time};

#[test]
fn decimal_string_renders_digits() {
    assert_eq!(decimal_string(0), "0");
    assert_eq!(decimal_string(7), "7");
    assert_eq!(decimal_string(1234567890), "1234567890");
    assert_eq!(decimal_string(u128::MAX), u128::MAX.to_string());
}

#[test]
fn format_time_picks_units() {
    assert_eq!(format_time(0), "0s");
    assert_eq!(format_time(42), "42s");
    assert_eq!(format_time(60), "1m 0s");
    assert_eq!(format_time(307), "5m 7s");
    assert_eq!(format_time(3600), "1h 0m");
    assert_eq!(format_time(3725), "1h 2m");
    assert_eq!(format_time(90061), "25h 1m");
}

#[test]
fn variant_classes() {
    assert_eq!(BadgeVariant::default().class(), "border-white/20 bg-indigo-600 text-white");
    assert_eq!(BadgeVariant::Outline.class(), "border-slate-500 bg-transparent text-slate-500");
    assert_eq!(ButtonVariant::Destructive.class(), "bg-red-600 text-white hover:bg-red-700");
    assert_eq!(TabsVariant::default().root_class(), "tabs-default");
    assert_eq!(TabsVariant::Plain.root_class(), "tabs-ghost");
}
