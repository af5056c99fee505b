use assistant_rs::render::{
    ACCENT_ASSISTANT, ACCENT_MUSIC, ACCENT_MUSIC_BLUE, ACCENT_WEATHER, BG, BG_DARK, PIXELS, RING_DIM, SOFT, WHITE,
};
use assistant_rs::screens::{
    draw_assistant_orb, draw_assistant_robot_badge, draw_music_transport_controls, draw_settings_chevron,
    draw_settings_detail_clean_base, draw_settings_diag_icon, draw_settings_info_icon, draw_settings_storage_icon,
    draw_settings_sun_icon, draw_settings_time_icon,
};
use assistant_rs::widgets::{
    draw_album_tile, draw_bell_icon, draw_calendar_icon, draw_cloud_icon, draw_complication_battery, draw_media_button,
    draw_skip_icon, draw_timeline_sun_icon, draw_wind_icon,
};

fn frame() -> Vec<u16> {
    vec![0u16; PIXELS]
}

fn px(f: &[u16], x: usize, y: usize) -> u16 {
    f[y * 360 + x]
}

#[test]
fn media_button_shows_play_or_pause() {
    let mut f = frame();
    draw_media_button(&mut f, 180, 180, false);
    assert_eq!(px(&f, 170, 180), WHITE);
    assert_eq!(px(&f, 180, 140), BG_DARK);
    assert_eq!(px(&f, 180, 136), ACCENT_MUSIC);
    let mut g = frame();
    draw_media_button(&mut g, 180, 180, true);
    assert_eq!(px(&g, 170, 180), WHITE);
    assert_eq!(px(&g, 180, 180), BG_DARK);
}

#[test]
fn skip_icon_points_forward() {
    let mut f = frame();
    draw_skip_icon(&mut f, 100, 180, true, 3);
    assert_eq!(px(&f, 99, 180), 3);
    assert_eq!(px(&f, 114, 180), 3);
    assert_eq!(px(&f, 112, 170), 3);
    assert_eq!(px(&f, 98, 180), 0);
}

#[test]
fn small_icons() {
    let mut f = frame();
    draw_calendar_icon(&mut f, 180, 180, 4);
    assert_eq!(px(&f, 173, 180), 4);
    assert_eq!(px(&f, 180, 177), 4);
    assert_eq!(px(&f, 177, 181), 4);
    assert_eq!(px(&f, 180, 183), 0);

    let mut g = frame();
    draw_complication_battery(&mut g, 180, 180, 5);
    assert_eq!(px(&g, 172, 178), WHITE);
    assert_eq!(px(&g, 188, 179), WHITE);
    assert_eq!(px(&g, 176, 179), 5);
    assert_eq!(px(&g, 180, 165), BG_DARK);

    let mut h = frame();
    draw_bell_icon(&mut h, 180, 180, 9);
    assert_eq!(px(&h, 180, 171), 9);
    assert_eq!(px(&h, 175, 187), 9);
    assert_eq!(px(&h, 180, 192), 9);

    let mut k = frame();
    draw_timeline_sun_icon(&mut k, 180, 180, 6);
    assert_eq!(px(&k, 180, 180), 6);
    assert_eq!(px(&k, 180, 168), 6);
    assert_eq!(px(&k, 180, 170), 0);

    let mut c = frame();
    draw_cloud_icon(&mut c, 180, 180, 8);
    assert_eq!(px(&c, 158, 184), 8);
    let mut w = frame();
    draw_wind_icon(&mut w, 180, 180, 8);
    assert_eq!(px(&w, 180, 164), 8);
    assert_eq!(px(&w, 180, 170), 0);
}

#[test]
fn album_tile_bands() {
    let mut f = frame();
    draw_album_tile(&mut f, 180, 180);
    assert_eq!(px(&f, 165, 160), ACCENT_MUSIC);
    assert_eq!(px(&f, 165, 185), ACCENT_MUSIC_BLUE);
    assert_eq!(px(&f, 165, 199), ACCENT_WEATHER);
}

#[test]
fn assistant_badges() {
    let mut f = frame();
    draw_assistant_robot_badge(&mut f, 180, 180, true);
    assert_eq!(px(&f, 180, 155), ACCENT_ASSISTANT);
    assert_eq!(px(&f, 165, 180), WHITE);
    assert_eq!(px(&f, 173, 180), ACCENT_ASSISTANT);
    assert_eq!(px(&f, 180, 166), WHITE);
    assert_eq!(px(&f, 180, 162), WHITE);
    let mut g = frame();
    draw_assistant_orb(&mut g, 180, 180, 28, 7);
    assert_eq!(px(&g, 180, 152), 7);
    assert_eq!(px(&g, 180, 160), SOFT);
    assert_eq!(px(&g, 180, 180), 7);
    assert_eq!(px(&g, 180, 170), BG_DARK);
}

#[test]
fn transport_controls_layout() {
    let mut f = frame();
    draw_music_transport_controls(&mut f, false);
    assert_eq!(px(&f, 35, 230), BG_DARK);
    assert_eq!(px(&f, 35, 191), ACCENT_MUSIC_BLUE);
    assert_eq!(px(&f, 175, 216), WHITE);
    assert_eq!(px(&f, 180, 175), ACCENT_MUSIC_BLUE);
    assert_eq!(px(&f, 180, 181), RING_DIM);
}

#[test]
fn settings_icons() {
    let mut f = frame();
    draw_settings_time_icon(&mut f, 180, 180, 2);
    assert_eq!(px(&f, 180, 165), 2);
    assert_eq!(px(&f, 180, 175), 2);
    let mut g = frame();
    draw_settings_storage_icon(&mut g, 180, 180, 2);
    assert_eq!(px(&g, 172, 175), 2);
    assert_eq!(px(&g, 176, 174), 2);
    assert_eq!(px(&g, 180, 186), 2);
    let mut h = frame();
    draw_settings_diag_icon(&mut h, 180, 180, 2);
    assert_eq!(px(&h, 170, 180), 2);
    let mut i = frame();
    draw_settings_info_icon(&mut i, 180, 180, 2);
    assert_eq!(px(&i, 180, 166), 2);
    assert_eq!(px(&i, 179, 180), 2);
    assert_eq!(px(&i, 177, 188), 2);
    let mut j = frame();
    draw_settings_sun_icon(&mut j, 180, 180, 2);
    assert_eq!(px(&j, 180, 166), 2);
    let mut k = frame();
    draw_settings_chevron(&mut k, 180, 180, 2);
    assert_eq!(px(&k, 175, 172), 2);
    assert_eq!(px(&k, 185, 180), 2);
    let mut l = frame();
    draw_settings_detail_clean_base(&mut l);
    assert_eq!(px(&l, 100, 100), BG);
    assert_eq!(px(&l, 5, 5), 0);
}
