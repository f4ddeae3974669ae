use yamc::config::{Box, Button, ButtonSwitchable, Config, ControlsBar, Image, Metadata};
use yamc::player::{PlaybackStatus, PlayerSnapshot};
use yamc::render::{
    draw_buttons, draw_image, draw_metadata, image_draw, read_renderer_output, render_pass,
    renderer_request, DrawCommand, ImageDraw, MissingField, RendererOutput, RendererRequest, Style,
};

fn render_layout() -> Config {
    Config {
        refresh_rate_ms: 100,
        image: Image {
            force_symbols: false,
            margins: Box { top: 1, bottom: 2, left: 1, right: 3 },
            size: (24, 12),
        },
        metadata: Metadata { vertical_margins: (0, 0), interline_gap: 0 },
        controls_bar: ControlsBar {
            button_prev: Button { icon: '⏮', padding: (1, 1), margins: (0, 0) },
            button_playpause: ButtonSwitchable {
                icon_state1: '⏸',
                icon_state2: '▶',
                padding: (1, 1),
                margins: (0, 0),
            },
            button_next: Button { icon: '⏭', padding: (1, 1), margins: (0, 0) },
            is_background_present: true,
            are_caps_present: true,
            cap_left: '\u{e0b6}',
            cap_right: '\u{e0b4}',
        },
    }
}

fn small_image_layout() -> Config {
    let mut config = render_layout();
    config.image.margins = Box { top: 1, bottom: 0, left: 2, right: 0 };
    config.image.size = (3, 2);
    config
}

fn snapshot(status: PlaybackStatus) -> PlayerSnapshot {
    PlayerSnapshot {
        title: Some("Title".to_string()),
        artists: Some(vec!["First".to_string(), "Second".to_string()]),
        album: Some("Album".to_string()),
        cover_art_path: Some("/tmp/cover.png".to_string()),
        status,
    }
}

fn move_to(column: u32, row: u32) -> DrawCommand {
    DrawCommand::MoveTo { column, row }
}

fn print(text: &str, style: Style) -> DrawCommand {
    DrawCommand::Print { text: text.to_string(), style }
}

fn bar(playpause: &str) -> Vec<DrawCommand> {
    vec![
        move_to(28, 6),
        print("\u{e0b6}", Style::BarCap),
        print(" ⏮ ", Style::BarBody),
        print(playpause, Style::BarBody),
        print(" ⏭ ", Style::BarBody),
        print("\u{e0b4}", Style::BarCap),
        DrawCommand::Flush,
    ]
}

fn metadata_lines(artists: &str, title: &str, album: &str) -> Vec<DrawCommand> {
    vec![
        move_to(28, 3),
        DrawCommand::ClearToLineEnd,
        print(artists, Style::Bold),
        print(" - ", Style::Plain),
        print(title, Style::Plain),
        move_to(28, 4),
        DrawCommand::ClearToLineEnd,
        print(album, Style::Italic),
        DrawCommand::Flush,
    ]
}

fn printed(commands: &[DrawCommand]) -> String {
    let mut all = String::new();
    for command in commands {
        if let DrawCommand::Print { text, .. } = command {
            all.push_str(text);
        }
    }
    all
}

#[test]
fn playing_shows_the_first_icon() {
    assert_eq!(draw_buttons(&render_layout(), PlaybackStatus::Playing), bar(" ⏸ "));
    let button = render_layout().controls_bar.button_playpause;
    assert_eq!(button.icon_for(PlaybackStatus::Playing), '⏸');
}

#[test]
fn paused_shows_the_second_icon() {
    assert_eq!(draw_buttons(&render_layout(), PlaybackStatus::Paused), bar(" ▶ "));
    let button = render_layout().controls_bar.button_playpause;
    assert_eq!(button.icon_for(PlaybackStatus::Paused), '▶');
}

#[test]
fn stopped_shows_the_second_icon() {
    assert_eq!(draw_buttons(&render_layout(), PlaybackStatus::Stopped), bar(" ▶ "));
    let button = render_layout().controls_bar.button_playpause;
    assert_eq!(button.icon_for(PlaybackStatus::Stopped), '▶');
}

#[test]
fn margins_and_padding_are_drawn_as_blanks() {
    let mut config = render_layout();
    config.controls_bar.button_prev.padding = (2, 3);
    config.controls_bar.button_prev.margins = (4, 5);
    config.controls_bar.button_playpause.padding = (0, 0);
    config.controls_bar.button_playpause.margins = (0, 0);
    config.controls_bar.button_next.padding = (0, 1);
    config.controls_bar.button_next.margins = (1, 0);
    let commands = draw_buttons(&config, PlaybackStatus::Playing);
    assert_eq!(
        commands,
        vec![
            move_to(28, 6),
            print("\u{e0b6}", Style::BarCap),
            print("      ⏮        ", Style::BarBody),
            print("⏸", Style::BarBody),
            print(" ⏭ ", Style::BarBody),
            print("\u{e0b4}", Style::BarCap),
            DrawCommand::Flush,
        ]
    );
}

#[test]
fn the_bar_is_drawn_where_it_is_clickable() {
    let mut config = render_layout();
    config.controls_bar.button_prev.padding = (2, 3);
    config.controls_bar.button_prev.margins = (4, 5);
    config.controls_bar.button_playpause.padding = (0, 1);
    config.controls_bar.button_playpause.margins = (6, 7);
    config.controls_bar.button_next.padding = (1, 0);
    config.controls_bar.button_next.margins = (8, 9);
    let geometry = yamc::geometry::resolve_geometry(&config);
    let commands = draw_buttons(&config, PlaybackStatus::Paused);
    assert_eq!(commands[0], move_to(geometry.bar.col_start, geometry.bar.row_start));
    let cells: Vec<char> = printed(&commands).chars().collect();
    assert_eq!(cells.len() as u32, geometry.bar.col_end_exclusive - geometry.bar.col_start);
    let cell = |column: u32| cells[(column - geometry.bar.col_start) as usize];
    assert_eq!(cell(geometry.bar.col_start), '\u{e0b6}');
    assert_eq!(cell(geometry.bar.col_end_exclusive - 1), '\u{e0b4}');
    assert_eq!(cell(geometry.prev.col_start + 2), '⏮');
    assert_eq!(cell(geometry.playpause.col_start), '▶');
    assert_eq!(cell(geometry.next.col_start + 1), '⏭');
    let icons = [
        geometry.prev.col_start + 2,
        geometry.playpause.col_start,
        geometry.next.col_start + 1,
    ];
    for column in geometry.bar.col_start + 1..geometry.bar.col_end_exclusive - 1 {
        if !icons.contains(&column) {
            assert_eq!(cell(column), ' ');
        }
    }
}

#[test]
fn metadata_shows_artists_title_and_album() {
    let drawn = draw_metadata(&render_layout(), &snapshot(PlaybackStatus::Playing));
    assert_eq!(drawn, Ok(metadata_lines("First, Second", "Title", "Album")));
}

#[test]
fn metadata_with_one_artist() {
    let mut snap = snapshot(PlaybackStatus::Playing);
    snap.artists = Some(vec!["Only".to_string()]);
    let drawn = draw_metadata(&render_layout(), &snap).unwrap();
    assert_eq!(drawn, metadata_lines("Only", "Title", "Album"));
    assert_eq!(printed(&drawn[..5]), "Only - Title");
}

#[test]
fn metadata_without_artists_has_one_separator() {
    let mut snap = snapshot(PlaybackStatus::Playing);
    snap.artists = Some(Vec::new());
    let drawn = draw_metadata(&render_layout(), &snap).unwrap();
    assert_eq!(drawn, metadata_lines("", "Title", "Album"));
    assert_eq!(printed(&drawn[..5]), " - Title");
}

#[test]
fn metadata_without_album_draws_an_empty_line() {
    let mut snap = snapshot(PlaybackStatus::Playing);
    snap.album = None;
    let drawn = draw_metadata(&render_layout(), &snap);
    assert_eq!(drawn, Ok(metadata_lines("First, Second", "Title", "")));
}

#[test]
fn metadata_is_skipped_without_artists_or_title() {
    let mut snap = snapshot(PlaybackStatus::Playing);
    snap.artists = None;
    assert_eq!(draw_metadata(&render_layout(), &snap), Err(MissingField::Artists));
    snap.title = None;
    assert_eq!(draw_metadata(&render_layout(), &snap), Err(MissingField::Artists));
    snap.artists = Some(vec!["A".to_string()]);
    assert_eq!(draw_metadata(&render_layout(), &snap), Err(MissingField::Title));
}

#[test]
fn metadata_follows_the_image() {
    let mut config = render_layout();
    config.image.margins.left = 10;
    config.image.margins.right = 0;
    config.image.size = (5, 5);
    let drawn = draw_metadata(&config, &snapshot(PlaybackStatus::Playing)).unwrap();
    assert_eq!(drawn[0], move_to(15, 3));
    assert_eq!(drawn[5], move_to(15, 4));
}

#[test]
fn image_is_blanked_then_written() {
    let rows = vec!["ab".to_string(), "cd".to_string()];
    assert_eq!(
        draw_image(&small_image_layout(), &rows),
        vec![
            move_to(2, 1),
            print("   ", Style::Plain),
            move_to(2, 2),
            print("   ", Style::Plain),
            move_to(2, 1),
            print("ab", Style::Plain),
            move_to(2, 2),
            print("cd", Style::Plain),
            DrawCommand::Flush,
        ]
    );
}

#[test]
fn image_rows_are_all_written_in_order() {
    let rows = vec!["ab".to_string(), "cd".to_string(), "ef".to_string(), String::new()];
    assert_eq!(
        draw_image(&small_image_layout(), &rows),
        vec![
            move_to(2, 1),
            print("   ", Style::Plain),
            move_to(2, 2),
            print("   ", Style::Plain),
            move_to(2, 1),
            print("ab", Style::Plain),
            move_to(2, 2),
            print("cd", Style::Plain),
            move_to(2, 3),
            print("ef", Style::Plain),
            move_to(2, 4),
            print("", Style::Plain),
            DrawCommand::Flush,
        ]
    );
}

#[test]
fn image_with_many_rows_writes_each_once() {
    let rows: Vec<String> = (0..500).map(|i| format!("row {}", i)).collect();
    let drawn = draw_image(&small_image_layout(), &rows);
    assert_eq!(drawn.len(), 2 * 2 + 2 * 500 + 1);
    for (i, row) in rows.iter().enumerate() {
        assert_eq!(drawn[4 + 2 * i], move_to(2, 1 + i as u32));
        assert_eq!(drawn[4 + 2 * i + 1], print(row, Style::Plain));
    }
    assert_eq!(drawn[drawn.len() - 1], DrawCommand::Flush);
}

#[test]
fn image_rows_reach_the_last_addressable_row() {
    let mut config = small_image_layout();
    config.image.margins.top = 65533;
    let rows = vec!["a".to_string(), "b".to_string(), "c".to_string()];
    let drawn = draw_image(&config, &rows);
    assert_eq!(drawn[4], move_to(2, 65533));
    assert_eq!(drawn[6], move_to(2, 65534));
    assert_eq!(drawn[8], move_to(2, 65535));
    assert_eq!(drawn[9], print("c", Style::Plain));
}

#[test]
fn image_that_cannot_be_addressed_is_not_drawn() {
    let mut config = small_image_layout();
    config.image.margins.top = 65533;
    let snap = snapshot(PlaybackStatus::Playing);
    let fits = RendererOutput { stdout: b"a\nb\nc".to_vec(), stderr: Vec::new() };
    assert_eq!(
        image_draw(&config, &snap, Some(&fits)),
        ImageDraw::Drawn(draw_image(
            &config,
            &vec!["a".to_string(), "b".to_string(), "c".to_string()]
        ))
    );
    let too_many = RendererOutput { stdout: b"a\nb\nc\nd".to_vec(), stderr: Vec::new() };
    assert_eq!(image_draw(&config, &snap, Some(&too_many)), ImageDraw::OffScreen);
    // the trailing newline makes a last, empty row
    let trailing = RendererOutput { stdout: b"a\nb\nc\n".to_vec(), stderr: Vec::new() };
    assert_eq!(image_draw(&config, &snap, Some(&trailing)), ImageDraw::OffScreen);
    let pass = render_pass(&config, &snap, Some(&too_many));
    assert_eq!(pass.image, ImageDraw::OffScreen);
    assert_eq!(pass.buttons, draw_buttons(&config, PlaybackStatus::Playing));
    assert!(pass.metadata.is_ok());
}

#[test]
fn image_on_the_first_row_may_fill_every_row() {
    let mut config = small_image_layout();
    config.image.margins.top = 0;
    let snap = snapshot(PlaybackStatus::Playing);
    let full = RendererOutput { stdout: vec![b'\n'; 65535], stderr: Vec::new() };
    match image_draw(&config, &snap, Some(&full)) {
        ImageDraw::Drawn(batch) => {
            assert_eq!(batch.len(), 2 * 2 + 2 * 65536 + 1);
            assert_eq!(batch[batch.len() - 3], move_to(2, 65535));
        }
        other => panic!("not drawn: {:?}", other),
    }
    let over = RendererOutput { stdout: vec![b'\n'; 65536], stderr: Vec::new() };
    assert_eq!(image_draw(&config, &snap, Some(&over)), ImageDraw::OffScreen);
}

#[test]
fn image_with_few_rows_still_blanks_the_block() {
    let rows = vec!["x".to_string()];
    assert_eq!(
        draw_image(&small_image_layout(), &rows),
        vec![
            move_to(2, 1),
            print("   ", Style::Plain),
            move_to(2, 2),
            print("   ", Style::Plain),
            move_to(2, 1),
            print("x", Style::Plain),
            DrawCommand::Flush,
        ]
    );
    assert_eq!(draw_image(&small_image_layout(), &Vec::new()).len(), 5);
}

#[test]
fn image_of_no_height_blanks_nothing() {
    let mut config = small_image_layout();
    config.image.size = (3, 0);
    assert_eq!(
        draw_image(&config, &vec!["ab".to_string()]),
        vec![move_to(2, 1), print("ab", Style::Plain), DrawCommand::Flush]
    );
    assert_eq!(draw_image(&config, &Vec::new()), vec![DrawCommand::Flush]);
}

#[test]
fn renderer_is_asked_for_the_image_size() {
    let request = renderer_request(&render_layout(), &snapshot(PlaybackStatus::Playing));
    assert_eq!(
        request,
        Some(RendererRequest {
            path: "/tmp/cover.png".to_string(),
            width: 24,
            height: 12,
            stretch: true,
            margin_bottom: 2,
            margin_right: 3,
        })
    );
}

#[test]
fn renderer_is_told_the_image_margins() {
    let mut config = render_layout();
    config.image.margins.bottom = 0;
    config.image.margins.right = 0;
    let request = renderer_request(&config, &snapshot(PlaybackStatus::Playing)).unwrap();
    assert_eq!(request.margin_bottom, 0);
    assert_eq!(request.margin_right, 0);
    config.image.margins.bottom = 7;
    config.image.margins.right = 11;
    config.image.margins.top = 100;
    config.image.margins.left = 200;
    let request = renderer_request(&config, &snapshot(PlaybackStatus::Playing)).unwrap();
    assert_eq!(request.margin_bottom, 7);
    assert_eq!(request.margin_right, 11);
    config.image.margins.bottom = u16::MAX;
    config.image.margins.right = u16::MAX;
    let request = renderer_request(&config, &snapshot(PlaybackStatus::Playing)).unwrap();
    assert_eq!(request.margin_bottom, 65535);
    assert_eq!(request.margin_right, 65535);
}

#[test]
fn renderer_is_not_asked_without_art() {
    let mut snap = snapshot(PlaybackStatus::Playing);
    snap.cover_art_path = None;
    assert_eq!(renderer_request(&render_layout(), &snap), None);
}

#[test]
fn renderer_output_is_read_as_rows() {
    let output = RendererOutput { stdout: b"ab\ncd\n".to_vec(), stderr: Vec::new() };
    assert_eq!(
        read_renderer_output(&output),
        Ok(vec!["ab".to_string(), "cd".to_string(), String::new()])
    );
    let empty = RendererOutput { stdout: Vec::new(), stderr: Vec::new() };
    assert_eq!(read_renderer_output(&empty), Ok(vec![String::new()]));
}

#[test]
fn renderer_output_is_decoded_leniently() {
    let output = RendererOutput { stdout: vec![b'a', 0xff, b'\n', 0xe2, 0x8f, 0xae], stderr: Vec::new() };
    assert_eq!(
        read_renderer_output(&output),
        Ok(vec!["a\u{fffd}".to_string(), "⏮".to_string()])
    );
}

#[test]
fn renderer_complaint_is_a_failure() {
    let output = RendererOutput {
        stdout: b"ab\ncd".to_vec(),
        stderr: b"chafa: failed to open file\n".to_vec(),
    };
    assert_eq!(read_renderer_output(&output), Err("chafa: failed to open file\n".to_string()));
    let blank = RendererOutput { stdout: Vec::new(), stderr: b" ".to_vec() };
    assert_eq!(read_renderer_output(&blank), Err(" ".to_string()));
}

#[test]
fn image_draw_follows_the_renderer() {
    let config = small_image_layout();
    let snap = snapshot(PlaybackStatus::Playing);
    let good = RendererOutput { stdout: b"ab\ncd".to_vec(), stderr: Vec::new() };
    assert_eq!(
        image_draw(&config, &snap, Some(&good)),
        ImageDraw::Drawn(draw_image(&config, &vec!["ab".to_string(), "cd".to_string()]))
    );
    let bad = RendererOutput { stdout: b"ab\ncd".to_vec(), stderr: b"no".to_vec() };
    assert_eq!(image_draw(&config, &snap, Some(&bad)), ImageDraw::Failed("no".to_string()));
    assert_eq!(image_draw(&config, &snap, None), ImageDraw::Skipped);
    let mut artless = snapshot(PlaybackStatus::Playing);
    artless.cover_art_path = None;
    assert_eq!(image_draw(&config, &artless, Some(&good)), ImageDraw::Skipped);
    assert_eq!(image_draw(&config, &artless, None), ImageDraw::Skipped);
}

#[test]
fn a_failing_renderer_stops_only_the_image() {
    let config = render_layout();
    let snap = snapshot(PlaybackStatus::Playing);
    let bad = RendererOutput { stdout: b"junk".to_vec(), stderr: b"cannot render".to_vec() };
    let pass = render_pass(&config, &snap, Some(&bad));
    assert_eq!(pass.image, ImageDraw::Failed("cannot render".to_string()));
    assert_eq!(pass.metadata, Ok(metadata_lines("First, Second", "Title", "Album")));
    assert_eq!(pass.buttons, bar(" ⏸ "));

    let good = RendererOutput { stdout: b"row".to_vec(), stderr: Vec::new() };
    let fine = render_pass(&config, &snap, Some(&good));
    assert_eq!(fine.metadata, pass.metadata);
    assert_eq!(fine.buttons, pass.buttons);
    assert_eq!(fine.image, ImageDraw::Drawn(draw_image(&config, &vec!["row".to_string()])));
}

#[test]
fn a_missing_field_stops_only_the_metadata() {
    let config = render_layout();
    let mut snap = snapshot(PlaybackStatus::Paused);
    snap.title = None;
    snap.cover_art_path = None;
    let pass = render_pass(&config, &snap, None);
    assert_eq!(pass.image, ImageDraw::Skipped);
    assert_eq!(pass.metadata, Err(MissingField::Title));
    assert_eq!(pass.buttons, bar(" ▶ "));
}

#[test]
fn playing_draws_the_pause_icon_between_one_blank_each_side() {
    let commands = draw_buttons(&render_layout(), PlaybackStatus::Playing);
    assert_eq!(commands[3], print(" ⏸ ", Style::BarBody));
}
