//! The render pipeline: three independent draw operations.
//!
//! A draw operation does not touch the terminal. It returns one batch of commands,
//! ending in a single flush, and the front end carries the batch out in order. Every
//! position in a batch comes from the geometry resolver.

use vstd::prelude::*;
use crate::config::{ButtonSwitchable, Config, ADDRESSABLE_CELLS};
use crate::geometry::{geometry_of, lemma_regions_hold_layout_columns, resolve_geometry, Region, BAR_ROW};
use crate::player::{PlaybackStatus, PlayerSnapshot};
use crate::text::{
    blanks, decode_lines, decode_lossy, decoded_lines, join, joined, lines_of, lossy_text, spaces,
    split_lines, texts_of,
};

verus! {

/// How a piece of text is dressed.
#[derive(Clone, Copy, Debug, PartialEq, Eq)]
pub enum Style {
    /// No attributes.
    Plain,
    /// Emphasised.
    Bold,
    /// De-emphasised.
    Italic,
    /// The bar's end caps: accent colour on the default background.
    BarCap,
    /// The bar's body: dark text on the accent colour.
    BarBody,
}

/// One terminal write.
#[derive(Debug, PartialEq, Eq)]
pub enum DrawCommand {
    /// Put the cursor at a cell.
    MoveTo { column: u32, row: u32 },
    /// Erase from the cursor to the end of its line.
    ClearToLineEnd,
    /// Write text at the cursor.
    Print { text: String, style: Style },
    /// Hand everything queued so far to the terminal.
    Flush,
}

/// What a command means, over mathematical values.
pub enum DrawOp {
    MoveTo { column: int, row: int },
    ClearToLineEnd,
    Print { text: Seq<char>, style: Style },
    Flush,
}

impl View for DrawCommand {
    type V = DrawOp;

    open spec fn view(&self) -> DrawOp {
        match *self {
            DrawCommand::MoveTo { column, row } => DrawOp::MoveTo {
                column: column as int,
                row: row as int,
            },
            DrawCommand::ClearToLineEnd => DrawOp::ClearToLineEnd,
            DrawCommand::Print { text, style } => DrawOp::Print { text: text@, style },
            DrawCommand::Flush => DrawOp::Flush,
        }
    }
}

/// The meaning of a batch of commands.
pub open spec fn ops_of(commands: Seq<DrawCommand>) -> Seq<DrawOp> {
    commands.map_values(|c: DrawCommand| c@)
}

/// Which field the metadata draw could not do without.
#[derive(Clone, Copy, Debug, PartialEq, Eq)]
pub enum MissingField {
    Artists,
    Title,
}

/// What the external renderer is asked to do.
#[derive(Debug, PartialEq, Eq)]
pub struct RendererRequest {
    /// The cover art, as the player names it.
    pub path: String,
    /// Target width in cells.
    pub width: u16,
    /// Target height in cells.
    pub height: u16,
    /// Whether the image is to fill the target size regardless of its own
    /// proportions.
    pub stretch: bool,
    /// Rows the renderer is to keep free below the image.
    pub margin_bottom: u16,
    /// Columns the renderer is to keep free to the right of the image.
    pub margin_right: u16,
}

/// What the external renderer left on its two output streams.
#[derive(Debug, PartialEq, Eq)]
pub struct RendererOutput {
    pub stdout: Vec<u8>,
    pub stderr: Vec<u8>,
}

/// How the image draw of one pass ended.
#[derive(Debug, PartialEq, Eq)]
pub enum ImageDraw {
    /// There was nothing to draw: no cover art, or the renderer was not run.
    Skipped,
    /// The renderer complained. Its message is for the user; nothing is drawn.
    Failed(String),
    /// The renderer returned more rows than there are addressable rows from the
    /// image's first row down. Nothing is drawn.
    OffScreen,
    /// The batch that draws the image.
    Drawn(Vec<DrawCommand>),
}

/// The outcome of one full pass: each draw operation on its own.
#[derive(Debug, PartialEq, Eq)]
pub struct RenderPass {
    pub image: ImageDraw,
    pub metadata: Result<Vec<DrawCommand>, MissingField>,
    pub buttons: Vec<DrawCommand>,
}

/// The icon that the play/pause button shows in a playback state.
pub open spec fn shown_icon(button: ButtonSwitchable, status: PlaybackStatus) -> char {
    match status {
        PlaybackStatus::Playing => button.icon_state1,
        PlaybackStatus::Paused | PlaybackStatus::Stopped => button.icon_state2,
    }
}

/// The clickable cells of a button as they appear on screen: padding, icon, padding.
pub open spec fn clickable_text(icon: char, padding: (u16, u16)) -> Seq<char> {
    blanks(padding.0 as nat).push(icon) + blanks(padding.1 as nat)
}

/// All cells of a button as they appear on screen: the clickable cells between the
/// two margins. Margin and padding both show as blanks.
pub open spec fn button_text(icon: char, padding: (u16, u16), margins: (u16, u16)) -> Seq<char> {
    blanks((margins.0 + padding.0) as nat).push(icon) + blanks((padding.1 + margins.1) as nat)
}

/// The cells of the whole bar, from the left cap to the right cap.
pub open spec fn bar_text(config: Config, status: PlaybackStatus) -> Seq<char> {
    let bar = config.controls_bar;
    seq![bar.cap_left] + button_text(
        bar.button_prev.icon,
        bar.button_prev.padding,
        bar.button_prev.margins,
    ) + button_text(
        shown_icon(bar.button_playpause, status),
        bar.button_playpause.padding,
        bar.button_playpause.margins,
    ) + button_text(bar.button_next.icon, bar.button_next.padding, bar.button_next.margins)
        + seq![bar.cap_right]
}

/// The batch that draws the transport bar: the cursor goes to the bar's first cell,
/// then come the left cap, the three buttons and the right cap as one run, then
/// the flush.
pub open spec fn bar_ops(config: Config, status: PlaybackStatus) -> Seq<DrawOp> {
    let bar = config.controls_bar;
    let region = geometry_of(config).bar;
    seq![
        DrawOp::MoveTo { column: region.col_start as int, row: region.row_start as int },
        DrawOp::Print { text: seq![bar.cap_left], style: Style::BarCap },
        DrawOp::Print {
            text: button_text(
                bar.button_prev.icon,
                bar.button_prev.padding,
                bar.button_prev.margins,
            ),
            style: Style::BarBody,
        },
        DrawOp::Print {
            text: button_text(
                shown_icon(bar.button_playpause, status),
                bar.button_playpause.padding,
                bar.button_playpause.margins,
            ),
            style: Style::BarBody,
        },
        DrawOp::Print {
            text: button_text(
                bar.button_next.icon,
                bar.button_next.padding,
                bar.button_next.margins,
            ),
            style: Style::BarBody,
        },
        DrawOp::Print { text: seq![bar.cap_right], style: Style::BarCap },
        DrawOp::Flush,
    ]
}

/// The text of the first metadata line: the artists, separated by commas, then a
/// dash, then the title.
pub open spec fn title_line_text(artists: Seq<Seq<char>>, title: Seq<char>) -> Seq<char> {
    joined(artists, ", "@) + " - "@ + title
}

/// The batch that draws the two metadata lines. Each line is erased before it is
/// written, so a shorter text leaves nothing of a longer one behind.
pub open spec fn metadata_ops(
    config: Config,
    artists: Seq<Seq<char>>,
    title: Seq<char>,
    album: Seq<char>,
) -> Seq<DrawOp> {
    let first = geometry_of(config).title;
    let second = geometry_of(config).album;
    seq![
        DrawOp::MoveTo { column: first.col_start as int, row: first.row_start as int },
        DrawOp::ClearToLineEnd,
        DrawOp::Print { text: joined(artists, ", "@), style: Style::Bold },
        DrawOp::Print { text: " - "@, style: Style::Plain },
        DrawOp::Print { text: title, style: Style::Plain },
        DrawOp::MoveTo { column: second.col_start as int, row: second.row_start as int },
        DrawOp::ClearToLineEnd,
        DrawOp::Print { text: album, style: Style::Italic },
        DrawOp::Flush,
    ]
}

/// The album text of a snapshot: empty where the player reports none.
pub open spec fn album_text(snapshot: PlayerSnapshot) -> Seq<char> {
    match snapshot.album {
        Some(album) => album@,
        None => Seq::empty(),
    }
}

/// What the metadata draw owes for a snapshot: the batch where artists and title
/// are both there, otherwise the name of the first one that is missing.
pub open spec fn is_metadata_draw_of(
    outcome: Result<Vec<DrawCommand>, MissingField>,
    config: Config,
    snapshot: PlayerSnapshot,
) -> bool {
    match outcome {
        Ok(commands) => {
            &&& snapshot.artists is Some
            &&& snapshot.title is Some
            &&& ops_of(commands@) == metadata_ops(
                config,
                texts_of(snapshot.artists->Some_0@),
                snapshot.title->Some_0@,
                album_text(snapshot),
            )
        },
        Err(MissingField::Artists) => snapshot.artists is None,
        Err(MissingField::Title) => snapshot.artists is Some && snapshot.title is None,
    }
}

/// The commands that blank the first `height` rows of the image block.
pub open spec fn blanking_ops(region: Region, height: nat) -> Seq<DrawOp>
    decreases height,
{
    if height == 0 {
        Seq::empty()
    } else {
        blanking_ops(region, (height - 1) as nat).push(
            DrawOp::MoveTo {
                column: region.col_start as int,
                row: region.row_start + height - 1,
            },
        ).push(DrawOp::Print { text: blanks(region.width() as nat), style: Style::Plain })
    }
}

/// The commands that write the rows of an image, one below the other, each
/// starting at the block's first column.
pub open spec fn row_ops(region: Region, rows: Seq<Seq<char>>) -> Seq<DrawOp>
    decreases rows.len(),
{
    if rows.len() == 0 {
        Seq::empty()
    } else {
        row_ops(region, rows.drop_last()).push(
            DrawOp::MoveTo {
                column: region.col_start as int,
                row: region.row_start + rows.len() - 1,
            },
        ).push(DrawOp::Print { text: rows.last(), style: Style::Plain })
    }
}

/// Whether every row of an image has a terminal row to go to: the rows are written
/// from the image's first row down, one terminal row each.
pub open spec fn rows_are_addressable(config: Config, count: nat) -> bool {
    config.image.margins.top + count <= ADDRESSABLE_CELLS
}

/// The batch that draws the image: the whole block is blanked first, then every
/// row is written, the first on the block's first row and each next one on the row
/// below, and then comes the flush.
pub open spec fn image_ops(config: Config, rows: Seq<Seq<char>>) -> Seq<DrawOp> {
    let region = geometry_of(config).image;
    blanking_ops(region, config.image.size.1 as nat) + row_ops(region, rows) + seq![
        DrawOp::Flush,
    ]
}

/// What the renderer's output means: with anything on the error stream it is a
/// failure and the message is that stream's text; otherwise it is the rows of the
/// image, one per line of the output stream.
pub open spec fn is_reading_of(outcome: Result<Vec<String>, String>, output: RendererOutput) -> bool {
    match outcome {
        Ok(rows) => output.stderr@.len() == 0 && texts_of(rows@) == decoded_lines(
            lines_of(output.stdout@),
        ),
        Err(message) => output.stderr@.len() > 0 && message@ == lossy_text(output.stderr@),
    }
}

/// What the image draw of a pass owes: nothing without cover art or without
/// renderer output, the renderer's complaint where it made one, and otherwise the
/// batch for the rows it produced, unless there are more of them than rows that
/// can be addressed.
pub open spec fn is_image_draw_of(
    image: ImageDraw,
    config: Config,
    snapshot: PlayerSnapshot,
    output: Option<&RendererOutput>,
) -> bool {
    match image {
        ImageDraw::Skipped => snapshot.cover_art_path is None || output is None,
        ImageDraw::Failed(message) => {
            &&& snapshot.cover_art_path is Some
            &&& output is Some
            &&& output->Some_0.stderr@.len() > 0
            &&& message@ == lossy_text(output->Some_0.stderr@)
        },
        ImageDraw::OffScreen => {
            &&& snapshot.cover_art_path is Some
            &&& output is Some
            &&& output->Some_0.stderr@.len() == 0
            &&& !rows_are_addressable(config, lines_of(output->Some_0.stdout@).len())
        },
        ImageDraw::Drawn(commands) => {
            &&& snapshot.cover_art_path is Some
            &&& output is Some
            &&& output->Some_0.stderr@.len() == 0
            &&& rows_are_addressable(config, lines_of(output->Some_0.stdout@).len())
            &&& ops_of(commands@) == image_ops(
                config,
                decoded_lines(lines_of(output->Some_0.stdout@)),
            )
        },
    }
}

impl ButtonSwitchable {
    /// The icon for a playback state: the first while playing, the second while
    /// paused or stopped.
    pub fn icon_for(&self, status: PlaybackStatus) -> (icon: char)
        ensures
            icon == shown_icon(*self, status),
            status is Playing ==> icon == self.icon_state1,
            status is Paused ==> icon == self.icon_state2,
            status is Stopped ==> icon == self.icon_state2,
    {
        match status {
            PlaybackStatus::Playing => self.icon_state1,
            PlaybackStatus::Paused | PlaybackStatus::Stopped => self.icon_state2,
        }
    }
}

/// Builds the on-screen text of one button.
fn render_button(icon: char, padding: (u16, u16), margins: (u16, u16)) -> (text: String)
    ensures
        text@ == button_text(icon, padding, margins),
{
    let mut text = spaces(margins.0 as u32 + padding.0 as u32);
    text.push(icon);
    let trailing = spaces(padding.1 as u32 + margins.1 as u32);
    text.append(trailing.as_str());
    text
}

/// Builds a text of one glyph.
fn glyph(c: char) -> (text: String)
    ensures
        text@ == seq![c],
{
    let mut text = String::new();
    text.push(c);
    assert(text@ =~= seq![c]);
    text
}

/// Draws the transport bar for a playback state.
pub fn draw_buttons(config: &Config, status: PlaybackStatus) -> (commands: Vec<DrawCommand>)
    ensures
        ops_of(commands@) == bar_ops(*config, status),
{
    let bar = &config.controls_bar;
    let region = resolve_geometry(config).bar;
    let mut commands: Vec<DrawCommand> = Vec::new();
    commands.push(DrawCommand::MoveTo { column: region.col_start, row: region.row_start });
    commands.push(DrawCommand::Print { text: glyph(bar.cap_left), style: Style::BarCap });
    commands.push(
        DrawCommand::Print {
            text: render_button(
                bar.button_prev.icon,
                bar.button_prev.padding,
                bar.button_prev.margins,
            ),
            style: Style::BarBody,
        },
    );
    commands.push(
        DrawCommand::Print {
            text: render_button(
                bar.button_playpause.icon_for(status),
                bar.button_playpause.padding,
                bar.button_playpause.margins,
            ),
            style: Style::BarBody,
        },
    );
    commands.push(
        DrawCommand::Print {
            text: render_button(
                bar.button_next.icon,
                bar.button_next.padding,
                bar.button_next.margins,
            ),
            style: Style::BarBody,
        },
    );
    commands.push(DrawCommand::Print { text: glyph(bar.cap_right), style: Style::BarCap });
    commands.push(DrawCommand::Flush);
    assert(ops_of(commands@) =~= bar_ops(*config, status));
    commands
}

/// Draws the two metadata lines, or says which field the snapshot lacks. A missing
/// album is drawn as an empty line; without artists or without a title nothing is
/// drawn.
pub fn draw_metadata(config: &Config, snapshot: &PlayerSnapshot) -> (outcome: Result<
    Vec<DrawCommand>,
    MissingField,
>)
    ensures
        is_metadata_draw_of(outcome, *config, *snapshot),
        outcome is Ok <==> snapshot.artists is Some && snapshot.title is Some,
{
    let artists = match &snapshot.artists {
        Some(artists) => artists,
        None => {
            return Err(MissingField::Artists);
        },
    };
    let title = match &snapshot.title {
        Some(title) => title,
        None => {
            return Err(MissingField::Title);
        },
    };
    let album = match &snapshot.album {
        Some(album) => album.clone(),
        None => String::new(),
    };
    let geometry = resolve_geometry(config);
    let mut commands: Vec<DrawCommand> = Vec::new();
    commands.push(
        DrawCommand::MoveTo { column: geometry.title.col_start, row: geometry.title.row_start },
    );
    commands.push(DrawCommand::ClearToLineEnd);
    commands.push(DrawCommand::Print { text: join(artists, ", "), style: Style::Bold });
    commands.push(DrawCommand::Print { text: String::from_str(" - "), style: Style::Plain });
    commands.push(DrawCommand::Print { text: title.clone(), style: Style::Plain });
    commands.push(
        DrawCommand::MoveTo { column: geometry.album.col_start, row: geometry.album.row_start },
    );
    commands.push(DrawCommand::ClearToLineEnd);
    commands.push(DrawCommand::Print { text: album, style: Style::Italic });
    commands.push(DrawCommand::Flush);
    assert(ops_of(commands@) =~= metadata_ops(
        *config,
        texts_of(snapshot.artists->Some_0@),
        snapshot.title->Some_0@,
        album_text(*snapshot),
    ));
    Ok(commands)
}

/// Draws an image from its rows of text: every row, the first on the image
/// block's first row and each next one on the row below. The rows must all have
/// an addressable terminal row to go to.
pub fn draw_image(config: &Config, rows: &Vec<String>) -> (commands: Vec<DrawCommand>)
    requires
        rows_are_addressable(*config, rows@.len()),
    ensures
        ops_of(commands@) == image_ops(*config, texts_of(rows@)),
{
    let region = resolve_geometry(config).image;
    let height: u32 = config.image.size.1 as u32;
    let width: u32 = region.col_end_exclusive - region.col_start;
    let mut commands: Vec<DrawCommand> = Vec::new();
    let mut blanked: u32 = 0;
    while blanked < height
        invariant
            blanked <= height,
            height == config.image.size.1,
            region == geometry_of(*config).image,
            width == region.width(),
            ops_of(commands@) == blanking_ops(region, blanked as nat),
        decreases height - blanked,
    {
        let ghost before = ops_of(commands@);
        commands.push(
            DrawCommand::MoveTo { column: region.col_start, row: region.row_start + blanked },
        );
        commands.push(DrawCommand::Print { text: spaces(width), style: Style::Plain });
        blanked = blanked + 1;
        assert(ops_of(commands@) =~= before.push(
            DrawOp::MoveTo {
                column: region.col_start as int,
                row: region.row_start + blanked - 1,
            },
        ).push(DrawOp::Print { text: blanks(region.width() as nat), style: Style::Plain }));
    }
    let ghost blanking = ops_of(commands@);
    let ghost texts = texts_of(rows@);
    let mut written: usize = 0;
    while written < rows.len()
        invariant
            written <= rows.len(),
            rows_are_addressable(*config, rows@.len()),
            region == geometry_of(*config).image,
            texts == texts_of(rows@),
            ops_of(commands@) == blanking + row_ops(region, texts.take(written as int)),
        decreases rows.len() - written,
    {
        let ghost before = ops_of(commands@);
        let ghost longer = texts.take(written as int + 1);
        commands.push(
            DrawCommand::MoveTo {
                column: region.col_start,
                row: region.row_start + written as u32,
            },
        );
        commands.push(DrawCommand::Print { text: rows[written].clone(), style: Style::Plain });
        proof {
            assert(longer.drop_last() =~= texts.take(written as int));
            assert(longer.last() == rows@[written as int]@);
            assert(ops_of(commands@) =~= before.push(
                DrawOp::MoveTo {
                    column: region.col_start as int,
                    row: region.row_start + longer.len() - 1,
                },
            ).push(DrawOp::Print { text: longer.last(), style: Style::Plain }));
            assert(ops_of(commands@) =~= blanking + row_ops(region, longer));
        }
        written = written + 1;
    }
    assert(texts.take(written as int) =~= texts);
    let ghost body = ops_of(commands@);
    commands.push(DrawCommand::Flush);
    assert(ops_of(commands@) =~= body + seq![DrawOp::Flush]);
    commands
}

/// Says what the external renderer is to be asked for a snapshot: nothing where
/// the snapshot has no cover art, otherwise the art stretched to the image's size,
/// with the image's own bottom and right margins.
pub fn renderer_request(config: &Config, snapshot: &PlayerSnapshot) -> (request: Option<
    RendererRequest,
>)
    ensures
        request is Some <==> snapshot.cover_art_path is Some,
        request matches Some(r) ==> {
            &&& r.path@ == snapshot.cover_art_path->Some_0@
            &&& r.width == config.image.size.0
            &&& r.height == config.image.size.1
            &&& r.stretch
            &&& r.margin_bottom == config.image.margins.bottom
            &&& r.margin_right == config.image.margins.right
        },
{
    match &snapshot.cover_art_path {
        None => None,
        Some(path) => Some(
            RendererRequest {
                path: path.clone(),
                width: config.image.size.0,
                height: config.image.size.1,
                stretch: true,
                margin_bottom: config.image.margins.bottom,
                margin_right: config.image.margins.right,
            },
        ),
    }
}

/// Reads the renderer's output: a failure message where the error stream is not
/// empty, otherwise the rows of the image.
pub fn read_renderer_output(output: &RendererOutput) -> (outcome: Result<Vec<String>, String>)
    ensures
        is_reading_of(outcome, *output),
        outcome is Ok <==> output.stderr@.len() == 0,
{
    if output.stderr.len() > 0 {
        Err(decode_lossy(output.stderr.as_slice()))
    } else {
        let lines = split_lines(output.stdout.as_slice());
        Ok(decode_lines(&lines))
    }
}

/// Chooses the image draw from what the renderer returned, and draws the image
/// where the renderer made one and all of its rows can be addressed.
pub fn image_draw(
    config: &Config,
    snapshot: &PlayerSnapshot,
    output: Option<&RendererOutput>,
) -> (image: ImageDraw)
    ensures
        is_image_draw_of(image, *config, *snapshot, output),
        image is Skipped <==> snapshot.cover_art_path is None || output is None,
        image is Failed <==> snapshot.cover_art_path is Some && output is Some
            && output->Some_0.stderr@.len() > 0,
        image is Drawn <==> snapshot.cover_art_path is Some && output is Some
            && output->Some_0.stderr@.len() == 0 && rows_are_addressable(
            *config,
            lines_of(output->Some_0.stdout@).len(),
        ),
{
    if snapshot.cover_art_path.is_none() {
        return ImageDraw::Skipped;
    }
    match output {
        None => ImageDraw::Skipped,
        Some(output) => match read_renderer_output(output) {
            Err(message) => ImageDraw::Failed(message),
            Ok(rows) => {
                assert(texts_of(rows@).len() == rows@.len());
                assert(decoded_lines(lines_of(output.stdout@)).len() == lines_of(
                    output.stdout@,
                ).len());
                let room: u32 = ADDRESSABLE_CELLS - config.image.margins.top as u32;
                if rows.len() > room as usize {
                    ImageDraw::OffScreen
                } else {
                    ImageDraw::Drawn(draw_image(config, &rows))
                }
            },
        },
    }
}

/// One full pass: image, metadata and transport bar, each independent of the other
/// two. A failing renderer or a missing field stops its own draw only.
pub fn render_pass(
    config: &Config,
    snapshot: &PlayerSnapshot,
    output: Option<&RendererOutput>,
) -> (pass: RenderPass)
    ensures
        is_image_draw_of(pass.image, *config, *snapshot, output),
        pass.image is Skipped <==> snapshot.cover_art_path is None || output is None,
        pass.image is Failed <==> snapshot.cover_art_path is Some && output is Some
            && output->Some_0.stderr@.len() > 0,
        pass.image is Drawn <==> snapshot.cover_art_path is Some && output is Some
            && output->Some_0.stderr@.len() == 0 && rows_are_addressable(
            *config,
            lines_of(output->Some_0.stdout@).len(),
        ),
        is_metadata_draw_of(pass.metadata, *config, *snapshot),
        pass.metadata is Ok <==> snapshot.artists is Some && snapshot.title is Some,
        ops_of(pass.buttons@) == bar_ops(*config, snapshot.status),
{
    RenderPass {
        image: image_draw(config, snapshot, output),
        metadata: draw_metadata(config, snapshot),
        buttons: draw_buttons(config, snapshot.status),
    }
}


/// The text that a run of commands prints, in the order in which it is printed.
pub open spec fn printed_text(ops: Seq<DrawOp>) -> Seq<char>
    decreases ops.len(),
{
    if ops.len() == 0 {
        Seq::empty()
    } else {
        match ops.last() {
            DrawOp::Print { text, .. } => printed_text(ops.drop_last()) + text,
            _ => printed_text(ops.drop_last()),
        }
    }
}

/// The bar is drawn where the pointer is tested. The batch for the bar starts at
/// the bar region's first cell and prints one character for each of its cells:
/// the left cap first and the right cap last. The cells of each button's region
/// show that button's padding, icon and padding, so the icon sits after its left
/// padding, and every other cell between the caps is a blank of some margin.
pub proof fn lemma_bar_is_drawn_on_its_regions(config: Config, status: PlaybackStatus)
    ensures
        bar_ops(config, status)[0] == (DrawOp::MoveTo {
            column: geometry_of(config).bar.col_start as int,
            row: geometry_of(config).bar.row_start as int,
        }),
        printed_text(bar_ops(config, status)) == bar_text(config, status),
        bar_text(config, status).len() == geometry_of(config).bar.width(),
        bar_text(config, status).first() == config.controls_bar.cap_left,
        bar_text(config, status).last() == config.controls_bar.cap_right,
        bar_text(config, status).subrange(
            geometry_of(config).prev.col_start - geometry_of(config).bar.col_start,
            geometry_of(config).prev.col_end_exclusive - geometry_of(config).bar.col_start,
        ) == clickable_text(
            config.controls_bar.button_prev.icon,
            config.controls_bar.button_prev.padding,
        ),
        bar_text(config, status).subrange(
            geometry_of(config).playpause.col_start - geometry_of(config).bar.col_start,
            geometry_of(config).playpause.col_end_exclusive - geometry_of(config).bar.col_start,
        ) == clickable_text(
            shown_icon(config.controls_bar.button_playpause, status),
            config.controls_bar.button_playpause.padding,
        ),
        bar_text(config, status).subrange(
            geometry_of(config).next.col_start - geometry_of(config).bar.col_start,
            geometry_of(config).next.col_end_exclusive - geometry_of(config).bar.col_start,
        ) == clickable_text(
            config.controls_bar.button_next.icon,
            config.controls_bar.button_next.padding,
        ),
        forall|column: int|
            geometry_of(config).bar.col_start < column < geometry_of(config).bar.col_end_exclusive
                - 1 && !geometry_of(config).prev.contains(column, BAR_ROW as int)
                && !geometry_of(config).playpause.contains(column, BAR_ROW as int)
                && !geometry_of(config).next.contains(column, BAR_ROW as int)
                ==> #[trigger] bar_text(config, status)[column - geometry_of(config).bar.col_start]
                == ' ',
{
    lemma_regions_hold_layout_columns(config);
    let ops = bar_ops(config, status);
    let text = bar_text(config, status);
    assert(printed_text(ops) =~= text) by {
        reveal_with_fuel(printed_text, 8);
        let o6 = ops.drop_last();
        let o5 = o6.drop_last();
        let o4 = o5.drop_last();
        let o3 = o4.drop_last();
        let o2 = o3.drop_last();
        let o1 = o2.drop_last();
        assert(o1.drop_last().len() == 0);
    }
    let g = geometry_of(config);
    let origin = g.bar.col_start as int;
    let bar = config.controls_bar;
    assert(text.subrange(g.prev.col_start - origin, g.prev.col_end_exclusive - origin)
        =~= clickable_text(bar.button_prev.icon, bar.button_prev.padding));
    assert(text.subrange(g.playpause.col_start - origin, g.playpause.col_end_exclusive - origin)
        =~= clickable_text(
        shown_icon(bar.button_playpause, status),
        bar.button_playpause.padding,
    ));
    assert(text.subrange(g.next.col_start - origin, g.next.col_end_exclusive - origin)
        =~= clickable_text(bar.button_next.icon, bar.button_next.padding));
}

/// The first metadata line is printed in three pieces that together read
/// "artists - title". Without any artist the line is a blank, a dash, a blank and
/// the title: the separator appears once and nothing stands before it.
pub proof fn lemma_title_line_reads_artists_dash_title(
    config: Config,
    artists: Seq<Seq<char>>,
    title: Seq<char>,
    album: Seq<char>,
)
    ensures
        printed_text(metadata_ops(config, artists, title, album).subrange(0, 5))
            == title_line_text(artists, title),
        printed_text(metadata_ops(config, artists, title, album).subrange(5, 8)) == album,
        artists.len() == 0 ==> title_line_text(artists, title) == seq![' ', '-', ' '] + title,
        artists.len() == 1 ==> title_line_text(artists, title) == artists[0] + seq![' ', '-', ' ']
            + title,
{
    reveal_strlit(" - ");
    assert(" - "@ =~= seq![' ', '-', ' ']);
    let ops = metadata_ops(config, artists, title, album);
    let first = ops.subrange(0, 5);
    assert(printed_text(first) =~= title_line_text(artists, title)) by {
        reveal_with_fuel(printed_text, 6);
        let f4 = first.drop_last();
        let f3 = f4.drop_last();
        let f2 = f3.drop_last();
        let f1 = f2.drop_last();
        assert(f1.drop_last().len() == 0);
    }
    let second = ops.subrange(5, 8);
    assert(printed_text(second) =~= album) by {
        reveal_with_fuel(printed_text, 4);
        let s2 = second.drop_last();
        let s1 = s2.drop_last();
        assert(s1.drop_last().len() == 0);
    }
    if artists.len() == 0 {
        assert(title_line_text(artists, title) =~= seq![' ', '-', ' '] + title);
    }
}

/// Every row of an image is written, in order and once. After the two commands
/// for each row of the blanked block, the batch holds two commands for each row of
/// the image: the cursor goes to the block's first column on the row as far below
/// the block's first row as the row's index says, and the row's text is printed
/// there. Then comes the flush, and nothing else.
pub proof fn lemma_image_rows_are_all_written(config: Config, rows: Seq<Seq<char>>)
    ensures
        image_ops(config, rows).len() == 2 * config.image.size.1 + 2 * rows.len() + 1,
        image_ops(config, rows).last() == DrawOp::Flush,
        forall|i: int|
            0 <= i < rows.len() ==> #[trigger] image_ops(config, rows)[2 * config.image.size.1 + 2
                * i] == (DrawOp::MoveTo {
                column: config.image.margins.left as int,
                row: config.image.margins.top + i,
            }),
        forall|i: int|
            0 <= i < rows.len() ==> #[trigger] image_ops(config, rows)[2 * config.image.size.1 + 2
                * i + 1] == (DrawOp::Print { text: rows[i], style: Style::Plain }),
{
    lemma_regions_hold_layout_columns(config);
    let region = geometry_of(config).image;
    let blanking = blanking_ops(region, config.image.size.1 as nat);
    let written = row_ops(region, rows);
    let all = image_ops(config, rows);
    lemma_blanking_positions(region, config.image.size.1 as nat);
    lemma_row_positions(region, rows);
    assert forall|i: int| 0 <= i < rows.len() implies #[trigger] all[2 * config.image.size.1 + 2
        * i] == (DrawOp::MoveTo {
        column: config.image.margins.left as int,
        row: config.image.margins.top + i,
    }) by {
        assert(all[blanking.len() + 2 * i] == written[2 * i]);
    }
    assert forall|i: int| 0 <= i < rows.len() implies #[trigger] all[2 * config.image.size.1 + 2
        * i + 1] == (DrawOp::Print { text: rows[i], style: Style::Plain }) by {
        assert(all[blanking.len() + 2 * i + 1] == written[2 * i + 1]);
    }
}

/// Whether every position in a run of commands can be addressed by a terminal
/// coordinate.
pub open spec fn is_addressable(ops: Seq<DrawOp>) -> bool {
    forall|i: int|
        0 <= i < ops.len() ==> (#[trigger] ops[i] matches DrawOp::MoveTo { column, row } ==> 0
            <= column < ADDRESSABLE_CELLS && 0 <= row < ADDRESSABLE_CELLS)
}

/// On a valid layout every draw operation stays on the terminal: no batch moves
/// the cursor to a cell that a terminal coordinate cannot address, as long as the
/// image has no more rows than can be addressed from its first row down.
pub proof fn lemma_valid_layout_is_addressable(
    config: Config,
    status: PlaybackStatus,
    artists: Seq<Seq<char>>,
    title: Seq<char>,
    album: Seq<char>,
    rows: Seq<Seq<char>>,
)
    requires
        config.valid(),
        rows_are_addressable(config, rows.len()),
    ensures
        is_addressable(bar_ops(config, status)),
        is_addressable(metadata_ops(config, artists, title, album)),
        is_addressable(image_ops(config, rows)),
{
    lemma_regions_hold_layout_columns(config);
    let region = geometry_of(config).image;
    let height = config.image.size.1 as nat;
    lemma_blanking_positions(region, height);
    lemma_row_positions(region, rows);
    let blanking = blanking_ops(region, height);
    let written = row_ops(region, rows);
    let all = image_ops(config, rows);
    assert forall|i: int| 0 <= i < all.len() implies (#[trigger] all[i] matches DrawOp::MoveTo {
        column,
        row,
    } ==> 0 <= column < ADDRESSABLE_CELLS && 0 <= row < ADDRESSABLE_CELLS) by {
        if i < blanking.len() {
            assert(all[i] == blanking[i]);
        } else if i < blanking.len() + written.len() {
            let k = i - blanking.len();
            assert(all[i] == written[k]);
            if k % 2 == 0 {
                assert(written[k] == written[2 * (k / 2)]);
            } else {
                assert(written[k] == written[2 * (k / 2) + 1]);
            }
        }
    }
}

proof fn lemma_blanking_positions(region: Region, height: nat)
    ensures
        blanking_ops(region, height).len() == 2 * height,
        forall|i: int|
            0 <= i < 2 * height ==> (#[trigger] blanking_ops(region, height)[i]
                matches DrawOp::MoveTo { column, row } ==> column == region.col_start
                && region.row_start <= row < region.row_start + height),
    decreases height,
{
    if height > 0 {
        lemma_blanking_positions(region, (height - 1) as nat);
    }
}

proof fn lemma_row_positions(region: Region, rows: Seq<Seq<char>>)
    ensures
        row_ops(region, rows).len() == 2 * rows.len(),
        forall|i: int|
            0 <= i < rows.len() ==> #[trigger] row_ops(region, rows)[2 * i] == (DrawOp::MoveTo {
                column: region.col_start as int,
                row: region.row_start + i,
            }),
        forall|i: int|
            0 <= i < rows.len() ==> #[trigger] row_ops(region, rows)[2 * i + 1] == (DrawOp::Print {
                text: rows[i],
                style: Style::Plain,
            }),
    decreases rows.len(),
{
    if rows.len() > 0 {
        let shorter = rows.drop_last();
        lemma_row_positions(region, shorter);
        let ops = row_ops(region, rows);
        let before = row_ops(region, shorter);
        assert forall|i: int| 0 <= i < rows.len() implies #[trigger] ops[2 * i] == (DrawOp::MoveTo {
            column: region.col_start as int,
            row: region.row_start + i,
        }) by {
            if i < shorter.len() {
                assert(ops[2 * i] == before[2 * i]);
            }
        }
        assert forall|i: int| 0 <= i < rows.len() implies #[trigger] ops[2 * i + 1]
            == (DrawOp::Print { text: rows[i], style: Style::Plain }) by {
            if i < shorter.len() {
                assert(ops[2 * i + 1] == before[2 * i + 1]);
                assert(shorter[i] == rows[i]);
            }
        }
    }
}

} // verus!
