use bevy_widget::text::{text_constraint, TextBound, TextPlugin, Val};
use bevy_widget::ui::{UiPlugin, UiSystem};
use bevy_widget::WidgetPlugin;

#[test]
fn max_in_pixels_bounds_the_text() {
    assert_eq!(text_constraint(Val::Px(10.0f32), Val::Px(20.0), Val::Px(30.0)), TextBound::Px(30.0));
    assert_eq!(text_constraint(Val::Auto, Val::Auto, Val::Px(12.5f32)), TextBound::Px(12.5));
    assert_eq!(text_constraint(Val::Percent(50.0f32), Val::Percent(1.0), Val::Px(7.0)), TextBound::Px(7.0));
}

#[test]
fn min_in_pixels_bounds_when_max_is_not_in_pixels() {
    assert_eq!(text_constraint(Val::Px(10.0f32), Val::Px(20.0), Val::Auto), TextBound::Px(10.0));
    assert_eq!(text_constraint(Val::Px(10.0f32), Val::Auto, Val::Percent(80.0)), TextBound::Px(10.0));
}

#[test]
fn size_in_pixels_bounds_only_between_automatic_min_and_max() {
    assert_eq!(text_constraint(Val::Auto, Val::Px(20.0f32), Val::Auto), TextBound::Px(20.0));
    assert_eq!(text_constraint(Val::Percent(5.0f32), Val::Px(20.0), Val::Auto), TextBound::Unbounded);
    assert_eq!(text_constraint(Val::Auto, Val::Px(20.0f32), Val::Percent(90.0)), TextBound::Unbounded);
}

#[test]
fn percentages_and_auto_leave_the_text_unbounded() {
    assert_eq!(text_constraint::<f32>(Val::Auto, Val::Auto, Val::Auto), TextBound::Unbounded);
    assert_eq!(text_constraint(Val::Auto, Val::Percent(100.0f32), Val::Auto), TextBound::Unbounded);
    assert_eq!(text_constraint(Val::Percent(1.0f32), Val::Percent(2.0), Val::Percent(3.0)), TextBound::Unbounded);
}

#[test]
fn bound_works_on_any_number_type() {
    assert_eq!(text_constraint(Val::Px(3u32), Val::Px(4), Val::Auto), TextBound::Px(3));
    assert_eq!(text_constraint(Val::Auto, Val::Px(4u32), Val::Auto), TextBound::Px(4));
}

#[test]
fn plugins_and_labels() {
    let _ = (UiPlugin::default(), WidgetPlugin::default(), TextPlugin::default());
    assert_eq!(UiSystem::Flex, UiSystem::Flex.clone());
    assert_ne!(UiSystem::Focus, UiSystem::Stack);
}
