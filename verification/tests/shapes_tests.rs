use assistant_rs::internet_radio_screen;
use assistant_rs::music_screen;
use assistant_rs::audio::MusicScreenSnapshot;
use assistant_rs::model::OnboardModel;
use assistant_rs::pages::AssistantPage;
use assistant_rs::radio::RadioScreenSnapshot;
use assistant_rs::render::{accent_for_page, fill_frame, PIXELS, SOFT, WHITE, ACCENT_HOME, BLACK};
use assistant_rs::screens::{
    draw_music_progress_row, draw_settings_percent_bar, draw_weather_hour_values,
};
use assistant_rs::shapes::{
    arc_angles, blit_rgb565_asset, draw_line, draw_numeric_char, draw_numeric_value_centered, draw_polyline,
    fill_left_triangle, fill_play_triangle, fill_rounded_rect, stroke_rect,
};
use assistant_rs::weather::WeatherHourSlot;
use assistant_rs::widgets::{draw_home_battery_complication, draw_page_dots, draw_waveform};

fn frame() -> Vec<u16> {
    vec![0u16; PIXELS]
}

fn px(f: &[u16], x: usize, y: usize) -> u16 {
    f[y * 360 + x]
}

fn painted(f: &[u16], color: u16) -> Vec<(usize, usize)> {
    let mut out = Vec::new();
    for (i, &c) in f.iter().enumerate() {
        if c == color {
            out.push((i % 360, i / 360));
        }
    }
    out
}

#[test]
fn draw_line_walks_bresenham_points() {
    let mut f = frame();
    draw_line(&mut f, 100, 100, 106, 103, 7);
    let mut got = painted(&f, 7);
    got.sort_by_key(|p| (p.0, p.1));
    assert_eq!(got, vec![(100, 100), (101, 101), (102, 101), (103, 102), (104, 102), (105, 103), (106, 103)]);

    let mut g = frame();
    draw_line(&mut g, 200, 150, 197, 160, 3);
    let mut got = painted(&g, 3);
    got.sort_by_key(|p| (p.1, p.0));
    assert_eq!(
        got,
        vec![(200, 150), (200, 151), (199, 152), (199, 153), (199, 154), (198, 155), (198, 156), (198, 157), (198, 158), (197, 159), (197, 160)]
    );
}

#[test]
fn draw_line_of_one_point_and_off_screen() {
    let mut f = frame();
    draw_line(&mut f, 180, 180, 180, 180, 5);
    assert_eq!(painted(&f, 5), vec![(180, 180)]);
    draw_line(&mut f, -50, -50, -10, -10, 6);
    assert!(painted(&f, 6).is_empty());
}

#[test]
fn stroke_rect_draws_the_outline_only() {
    let mut f = frame();
    stroke_rect(&mut f, 150, 150, 10, 6, 9);
    assert_eq!(painted(&f, 9).len(), 28);
    assert_eq!(px(&f, 150, 150), 9);
    assert_eq!(px(&f, 159, 155), 9);
    assert_eq!(px(&f, 155, 152), 0);
}

#[test]
fn rounded_rect_leaves_the_corners() {
    let mut f = frame();
    fill_rounded_rect(&mut f, 100, 100, 40, 20, 8, 4);
    assert_eq!(px(&f, 120, 110), 4);
    assert_eq!(px(&f, 100, 100), 0);
    assert_eq!(px(&f, 108, 100), 4);
    assert_eq!(px(&f, 100, 108), 4);
}

#[test]
fn play_triangle_rows() {
    let mut f = frame();
    fill_play_triangle(&mut f, 180, 180, 10, 2);
    let got = painted(&f, 2);
    assert_eq!(got.len(), 47);
    let row = |y: usize| got.iter().filter(|p| p.1 == y).map(|p| p.0).collect::<Vec<_>>();
    assert_eq!(row(175), vec![177]);
    assert_eq!(row(180), (177..=185).collect::<Vec<_>>());
    assert_eq!(row(183), (177..=180).collect::<Vec<_>>());
    assert!(row(186).is_empty());
}

#[test]
fn left_triangle_mirrors_the_play_triangle() {
    let mut f = frame();
    fill_left_triangle(&mut f, 180, 180, 10, 2);
    let got = painted(&f, 2);
    assert_eq!(got.len(), 47);
    let row = |y: usize| got.iter().filter(|p| p.1 == y).map(|p| p.0).collect::<Vec<_>>();
    assert_eq!(row(175), vec![183]);
    assert_eq!(row(180), (175..=183).collect::<Vec<_>>());
}

#[test]
fn numeral_one_lights_the_right_segments() {
    let mut f = frame();
    draw_numeric_char(&mut f, 150, 100, '1', 24, 4, 8);
    assert_eq!(px(&f, 172, 115), 8);
    assert_eq!(px(&f, 152, 115), 0);
    assert_eq!(px(&f, 160, 101), 0);
    let mut g = frame();
    draw_numeric_char(&mut g, 150, 100, '?', 24, 4, 8);
    assert!(painted(&g, 8).is_empty());
}

#[test]
fn numeric_value_is_centred() {
    let mut f = frame();
    draw_numeric_value_centered(&mut f, 100, "8", 24, 4, 8);
    let got = painted(&f, 8);
    let min_x = got.iter().map(|p| p.0).min().unwrap();
    let max_x = got.iter().map(|p| p.0).max().unwrap();
    assert_eq!(min_x, 167);
    assert_eq!(max_x, 192);
}

#[test]
fn arc_angles_wrap_at_360() {
    let a = arc_angles(350, 10);
    assert_eq!(a.len(), 21);
    assert_eq!(a[0], 350);
    assert_eq!(a[9], 359);
    assert_eq!(a[10], 0);
    assert_eq!(a[20], 10);
    assert_eq!(arc_angles(10, 10), vec![10]);
    let b = arc_angles(-90, 0);
    assert_eq!(b.len(), 91);
    assert_eq!(b[0], 270);
    assert_eq!(arc_angles(135, 45).len(), 271);
}

#[test]
fn polyline_joins_points() {
    let mut f = frame();
    draw_polyline(&mut f, &vec![(150, 150), (153, 150), (153, 152)], 6);
    let mut got = painted(&f, 6);
    got.sort();
    assert_eq!(got, vec![(150, 150), (151, 150), (152, 150), (153, 150), (153, 151), (153, 152)]);
    let mut g = frame();
    draw_polyline(&mut g, &vec![], 6);
    assert!(painted(&g, 6).is_empty());
}

#[test]
fn blit_reads_little_endian_pixels() {
    let mut asset = vec![0u8; 2 * PIXELS];
    asset[0] = 0x34;
    asset[1] = 0x12;
    asset[2 * 361] = 0xff;
    let mut f = frame();
    blit_rgb565_asset(&mut f, &asset);
    assert_eq!(f[0], 0x1234);
    assert_eq!(f[361], 0x00ff);
    assert_eq!(f[2], 0);
}

#[test]
fn page_dots_mark_the_current_page() {
    let mut f = frame();
    let mut model = OnboardModel::new();
    model.current_page = AssistantPage::Music;
    draw_page_dots(&model, &mut f);
    assert_eq!(px(&f, 174, 324), accent_for_page(AssistantPage::Music));
    assert_eq!(px(&f, 177, 324), accent_for_page(AssistantPage::Music));
    assert_eq!(px(&f, 150, 324), SOFT);
    assert_eq!(px(&f, 153, 324), 0);
}

#[test]
fn battery_complication_fill_follows_the_charge() {
    let mut f = frame();
    draw_home_battery_complication(&mut f, 66, 58, Some(50));
    assert_eq!(px(&f, 58, 54), ACCENT_HOME);
    assert_eq!(px(&f, 65, 54), ACCENT_HOME);
    assert_eq!(px(&f, 66, 54), 0);
    let mut g = frame();
    draw_home_battery_complication(&mut g, 66, 58, Some(0));
    assert_eq!(px(&g, 59, 54), ACCENT_HOME);
    assert_eq!(px(&g, 60, 54), 0);
}

#[test]
fn waveform_has_a_white_centre() {
    let mut f = frame();
    draw_waveform(&mut f, 180, 70, 22, 5);
    assert_eq!(px(&f, 180, 70), WHITE);
    assert_eq!(px(&f, 110, 67), 5);
}

#[test]
fn percent_bar_fill_and_knob() {
    let mut f = frame();
    draw_settings_percent_bar(&mut f, 100, 200, 100, 40, 11);
    assert_eq!(px(&f, 130, 202), 11);
    assert_eq!(px(&f, 140, 204), WHITE);
    assert_eq!(px(&f, 170, 202), assistant_rs::render::RING_DIM);
}

#[test]
fn progress_row_knob_sits_at_the_fill_end() {
    let mut f = frame();
    draw_music_progress_row(&mut f, 50, "0:10", "0:20");
    assert_eq!(px(&f, 180, 284), assistant_rs::render::ACCENT_MUSIC_BLUE);
    assert_eq!(px(&f, 230, 284), assistant_rs::render::RING_DIM);
}

#[test]
fn weather_hours_fall_back_to_placeholders() {
    let mut f = frame();
    draw_weather_hour_values(&mut f, &vec![], "SUNNY");
    assert!(painted(&f, assistant_rs::render::ACCENT_WEATHER).len() > 0);
    let mut g = frame();
    let slots: Vec<WeatherHourSlot> = (0..4)
        .map(|i| WeatherHourSlot { hour_label: format!("{}P", i + 1), temp_label: "70".to_string(), weather_code: 3 })
        .collect();
    draw_weather_hour_values(&mut g, &slots, "SUNNY");
    assert!(painted(&g, WHITE).len() > 0);
}

#[test]
fn music_screen_clears_to_black() {
    let mut f = vec![0x1234u16; PIXELS];
    let snap = MusicScreenSnapshot {
        track_label: "SONG".to_string(),
        subtitle_label: "WAV PCM".to_string(),
        source_label: "/AUDIO 1/1".to_string(),
        playing: false,
        progress_percent: 0,
        elapsed_label: "0:00".to_string(),
        duration_label: "1:00".to_string(),
    };
    music_screen::draw(&mut f, "12:00", &snap);
    assert_eq!(px(&f, 0, 0), BLACK);
    assert!(painted(&f, 0x1234).is_empty());
    assert!(painted(&f, WHITE).len() > 0);
}

#[test]
fn radio_screen_shows_stop_while_playing() {
    let mut f = frame();
    fill_frame(&mut f, 3);
    let snap = RadioScreenSnapshot {
        station_label: " ".to_string(),
        status_label: "PLAYING".to_string(),
        source_label: "JAZZ".to_string(),
        playing: true,
        progress_percent: 0,
        elapsed_label: "LIVE".to_string(),
        duration_label: "--".to_string(),
    };
    internet_radio_screen::draw(&mut f, "12:00", &snap);
    assert!(painted(&f, 3).is_empty());
    assert!(painted(&f, internet_radio_screen::RADIO_CYAN).len() > 0);
}

#[test]
fn far_away_shapes_paint_nothing() {
    let mut f = frame();
    assistant_rs::render::draw_text(&mut f, 2_000_000_000, 100, "FAR", WHITE, 2);
    assistant_rs::render::draw_text(&mut f, 100, -2_000_000_000, "FAR", WHITE, 2);
    assistant_rs::render::fill_circle(&mut f, 2_000_000_000, 180, 10, WHITE);
    draw_line(&mut f, -2_000_000_000, -5, -1_999_999_000, -5, WHITE);
    assert!(painted(&f, WHITE).is_empty());
}

#[test]
fn long_numeral_runs_draw_only_what_is_near() {
    let mut a = frame();
    let mut b = frame();
    let long: String = std::iter::repeat('8').take(3001).collect();
    draw_numeric_value_centered(&mut a, 100, &long, 20, 4, WHITE);
    draw_numeric_value_centered(&mut b, 100, &long, 20, 4, WHITE);
    assert_eq!(a, b);
    assert!(!painted(&a, WHITE).is_empty());
    let mut c = frame();
    draw_numeric_value_centered(&mut c, 2_000_000, "12", 20, 4, WHITE);
    assert!(painted(&c, WHITE).is_empty());
}
