//! The start-up check of the external tools: `yt-dlp` and Deno must answer,
//! FFmpeg is optional. The caller runs each probe and feeds its outcome to
//! [`tool_check_step`], which says what to do next.
use vstd::prelude::*;

verus! {

broadcast use vstd::string::group_string_axioms;

/// The tool being checked, in the order of the check.
#[derive(Debug, Clone, Copy, PartialEq, Eq, Structural)]
pub enum ToolStage {
    YtDlp,
    Deno,
    Ffmpeg,
}

/// How running a tool with its version flag went.
#[derive(Debug, Clone, Copy, PartialEq, Eq, Structural)]
pub enum ToolProbe {
    Succeeded,
    ExitedWithError,
    NotFound,
    TimedOut,
}

/// What to do after a probe: probe the next tool, refuse to start with a
/// message, or start (warning when FFmpeg is missing).
#[derive(Debug, Clone, PartialEq, Eq)]
pub enum ToolAction {
    Probe(ToolStage),
    Refuse(String),
    Ready { warn_ffmpeg: bool },
}

pub enum ToolActionView {
    Probe(ToolStage),
    Refuse(Seq<char>),
    Ready { warn_ffmpeg: bool },
}

impl View for ToolAction {
    type V = ToolActionView;

    open spec fn view(&self) -> ToolActionView {
        match self {
            ToolAction::Probe(s) => ToolActionView::Probe(*s),
            ToolAction::Refuse(m) => ToolActionView::Refuse(m@),
            ToolAction::Ready { warn_ffmpeg } => ToolActionView::Ready { warn_ffmpeg: *warn_ffmpeg },
        }
    }
}

/// The check's step: `yt-dlp` then Deno must run successfully, each
/// failure stopping start-up with its own message; FFmpeg is probed last
/// and only a missing FFmpeg is reported, as a warning.
pub open spec fn tool_check_outcome(stage: ToolStage, probe: ToolProbe) -> ToolActionView {
    match stage {
        ToolStage::YtDlp => match probe {
            ToolProbe::Succeeded => ToolActionView::Probe(ToolStage::Deno),
            ToolProbe::TimedOut => ToolActionView::Refuse("yt-dlp demorou demais para responder"@),
            ToolProbe::NotFound => ToolActionView::Refuse(
                "yt-dlp não foi encontrado. Coloque yt-dlp/yt-dlp.exe ao lado do executável ou no PATH"@,
            ),
            ToolProbe::ExitedWithError => ToolActionView::Refuse(
                "yt-dlp foi encontrado, mas não conseguiu executar --version"@,
            ),
        },
        ToolStage::Deno => match probe {
            ToolProbe::Succeeded => ToolActionView::Probe(ToolStage::Ffmpeg),
            ToolProbe::TimedOut => ToolActionView::Refuse("Deno demorou demais para responder"@),
            ToolProbe::NotFound => ToolActionView::Refuse(
                "Deno não foi encontrado. Coloque deno/deno.exe ao lado do executável ou no PATH"@,
            ),
            ToolProbe::ExitedWithError => ToolActionView::Refuse(
                "Deno foi encontrado, mas não conseguiu executar --version"@,
            ),
        },
        ToolStage::Ffmpeg => ToolActionView::Ready {
            warn_ffmpeg: probe == ToolProbe::NotFound || probe == ToolProbe::TimedOut,
        },
    }
}

/// One step of the tool check.
pub fn tool_check_step(stage: ToolStage, probe: ToolProbe) -> (a: ToolAction)
    ensures
        a@ == tool_check_outcome(stage, probe),
{
    match stage {
        ToolStage::YtDlp => match probe {
            ToolProbe::Succeeded => ToolAction::Probe(ToolStage::Deno),
            ToolProbe::TimedOut => ToolAction::Refuse("yt-dlp demorou demais para responder".to_owned()),
            ToolProbe::NotFound => ToolAction::Refuse(
                "yt-dlp não foi encontrado. Coloque yt-dlp/yt-dlp.exe ao lado do executável ou no PATH".to_owned(),
            ),
            ToolProbe::ExitedWithError => ToolAction::Refuse(
                "yt-dlp foi encontrado, mas não conseguiu executar --version".to_owned(),
            ),
        },
        ToolStage::Deno => match probe {
            ToolProbe::Succeeded => ToolAction::Probe(ToolStage::Ffmpeg),
            ToolProbe::TimedOut => ToolAction::Refuse("Deno demorou demais para responder".to_owned()),
            ToolProbe::NotFound => ToolAction::Refuse(
                "Deno não foi encontrado. Coloque deno/deno.exe ao lado do executável ou no PATH".to_owned(),
            ),
            ToolProbe::ExitedWithError => ToolAction::Refuse(
                "Deno foi encontrado, mas não conseguiu executar --version".to_owned(),
            ),
        },
        ToolStage::Ffmpeg => ToolAction::Ready {
            warn_ffmpeg: probe == ToolProbe::NotFound || probe == ToolProbe::TimedOut,
        },
    }
}

/// Whether the executable's own directory is put first on the search path:
/// exactly when one of the tools (`yt-dlp`, Deno or FFmpeg) sits beside the
/// executable, so that tools shipped with the bot are looked for there
/// first.
pub fn local_dir_first(ytdlp_beside: bool, deno_beside: bool, ffmpeg_beside: bool) -> (b: bool)
    ensures
        b == (ytdlp_beside || deno_beside || ffmpeg_beside),
{
    ytdlp_beside || deno_beside || ffmpeg_beside
}

/// The check moves forward only: `yt-dlp` leads to Deno and Deno to FFmpeg,
/// each on success only; a missing or failing `yt-dlp` or Deno stops
/// start-up; FFmpeg never stops it, and only its absence is warned about.
pub proof fn law_tool_check(probe: ToolProbe)
    ensures
        (tool_check_outcome(ToolStage::YtDlp, probe) == ToolActionView::Probe(ToolStage::Deno))
            <==> probe == ToolProbe::Succeeded,
        probe != ToolProbe::Succeeded ==> tool_check_outcome(ToolStage::YtDlp, probe) is Refuse,
        (tool_check_outcome(ToolStage::Deno, probe) == ToolActionView::Probe(ToolStage::Ffmpeg))
            <==> probe == ToolProbe::Succeeded,
        probe != ToolProbe::Succeeded ==> tool_check_outcome(ToolStage::Deno, probe) is Refuse,
        tool_check_outcome(ToolStage::Ffmpeg, probe) is Ready,
        probe == ToolProbe::Succeeded || probe == ToolProbe::ExitedWithError ==> tool_check_outcome(
            ToolStage::Ffmpeg,
            probe,
        ) == (ToolActionView::Ready { warn_ffmpeg: false }),
{
}

} // verus!
