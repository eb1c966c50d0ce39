//! The configuration builder: an options struct, chained setters, and eager
//! validation of the enum-like string options.

use vstd::prelude::*;

use crate::strcmp::str_eq;

verus! {

/// Schedule on which the active log file is closed and a new one opened.
#[derive(Clone, Copy, Debug, PartialEq, Eq, Structural)]
pub enum Rotation {
    Minutely,
    Hourly,
    Daily,
    Never,
}

/// Encoding used to render each log record.
#[derive(Clone, Copy, Debug, PartialEq, Eq, Structural)]
pub enum OutputFormat {
    Pretty,
    Compact,
    Json,
    Full,
}

/// The rotation policy denoted by a token, or `None` for any other string.
pub open spec fn rotation_of(s: Seq<char>) -> Option<Rotation> {
    if s == "minutely"@ {
        Some(Rotation::Minutely)
    } else if s == "hourly"@ {
        Some(Rotation::Hourly)
    } else if s == "daily"@ {
        Some(Rotation::Daily)
    } else if s == "never"@ {
        Some(Rotation::Never)
    } else {
        None
    }
}

/// Whether a string is one of the four recognized rotation tokens.
pub open spec fn is_rotation_token(s: Seq<char>) -> bool {
    rotation_of(s) is Some
}

/// The output style denoted by a token, or `None` for any other string.
pub open spec fn format_of(s: Seq<char>) -> Option<OutputFormat> {
    if s == "pretty"@ {
        Some(OutputFormat::Pretty)
    } else if s == "compact"@ {
        Some(OutputFormat::Compact)
    } else if s == "json"@ {
        Some(OutputFormat::Json)
    } else if s == "full"@ {
        Some(OutputFormat::Full)
    } else {
        None
    }
}

/// Whether a string is one of the four recognized output-style tokens.
pub open spec fn is_format_token(s: Seq<char>) -> bool {
    format_of(s) is Some
}

/// Maps a rotation token to its policy; rejects every other string.
pub fn parse_rotation(s: &str) -> (r: Option<Rotation>)
    ensures
        r == rotation_of(s@),
{
    if str_eq(s, "minutely") {
        Some(Rotation::Minutely)
    } else if str_eq(s, "hourly") {
        Some(Rotation::Hourly)
    } else if str_eq(s, "daily") {
        Some(Rotation::Daily)
    } else if str_eq(s, "never") {
        Some(Rotation::Never)
    } else {
        None
    }
}

/// Maps an output-style token to its format; rejects every other string.
pub fn parse_format(s: &str) -> (r: Option<OutputFormat>)
    ensures
        r == format_of(s@),
{
    if str_eq(s, "pretty") {
        Some(OutputFormat::Pretty)
    } else if str_eq(s, "compact") {
        Some(OutputFormat::Compact)
    } else if str_eq(s, "json") {
        Some(OutputFormat::Json)
    } else if str_eq(s, "full") {
        Some(OutputFormat::Full)
    } else {
        None
    }
}

/// Each of the four rotation tokens resolves to its own distinct policy, and
/// every other string is rejected.
pub proof fn lemma_rotation_tokens()
    ensures
        rotation_of("minutely"@) == Some(Rotation::Minutely),
        rotation_of("hourly"@) == Some(Rotation::Hourly),
        rotation_of("daily"@) == Some(Rotation::Daily),
        rotation_of("never"@) == Some(Rotation::Never),
        rotation_of("minutely"@) != rotation_of("hourly"@),
        rotation_of("minutely"@) != rotation_of("daily"@),
        rotation_of("minutely"@) != rotation_of("never"@),
        rotation_of("hourly"@) != rotation_of("daily"@),
        rotation_of("hourly"@) != rotation_of("never"@),
        rotation_of("daily"@) != rotation_of("never"@),
        forall|s: Seq<char>|
            s != "minutely"@ && s != "hourly"@ && s != "daily"@ && s != "never"@
                ==> rotation_of(s) is None,
{
    reveal_strlit("minutely");
    reveal_strlit("hourly");
    reveal_strlit("daily");
    reveal_strlit("never");
    assert("minutely"@.len() == 8);
    assert("hourly"@.len() == 6);
    assert("daily"@.len() == 5);
    assert("never"@.len() == 5);
    assert("daily"@[0] == 'd');
    assert("never"@[0] == 'n');
}

/// Each of the four output-style tokens resolves to its own distinct format,
/// and every other string is rejected.
pub proof fn lemma_format_tokens()
    ensures
        format_of("pretty"@) == Some(OutputFormat::Pretty),
        format_of("compact"@) == Some(OutputFormat::Compact),
        format_of("json"@) == Some(OutputFormat::Json),
        format_of("full"@) == Some(OutputFormat::Full),
        format_of("pretty"@) != format_of("compact"@),
        format_of("pretty"@) != format_of("json"@),
        format_of("pretty"@) != format_of("full"@),
        format_of("compact"@) != format_of("json"@),
        format_of("compact"@) != format_of("full"@),
        format_of("json"@) != format_of("full"@),
        forall|s: Seq<char>|
            s != "pretty"@ && s != "compact"@ && s != "json"@ && s != "full"@
                ==> format_of(s) is None,
{
    reveal_strlit("pretty");
    reveal_strlit("compact");
    reveal_strlit("json");
    reveal_strlit("full");
    assert("pretty"@.len() == 6);
    assert("compact"@.len() == 7);
    assert("json"@.len() == 4);
    assert("full"@.len() == 4);
    assert("json"@[0] == 'j');
    assert("full"@[0] == 'f');
}

/// No string besides the four rotation tokens satisfies `rolling`'s
/// precondition: the call on any fifth value is a configuration error, so no
/// configuration holding an unrecognized rotation is ever produced and no
/// fallback policy is substituted.
pub proof fn lemma_rolling_rejects_unknown(s: Seq<char>)
    requires
        s != "minutely"@,
        s != "hourly"@,
        s != "daily"@,
        s != "never"@,
    ensures
        !is_rotation_token(s),
{
    lemma_rotation_tokens();
}

/// No string besides the four output-style tokens satisfies `format`'s
/// precondition: the call on any other value is a configuration error, so no
/// configuration holding an unrecognized style is ever produced and no
/// fallback style is substituted.
pub proof fn lemma_format_rejects_unknown(s: Seq<char>)
    requires
        s != "pretty"@,
        s != "compact"@,
        s != "json"@,
        s != "full"@,
    ensures
        !is_format_token(s),
{
    lemma_format_tokens();
}

/// The mathematical value of a configuration: every option, with strings as
/// character sequences.
pub struct ConfigView {
    pub filter_level: Seq<char>,
    pub with_ansi: bool,
    pub to_stdout: bool,
    pub directory: Seq<char>,
    pub file_name: Seq<char>,
    pub rolling: Rotation,
    pub format: OutputFormat,
    pub with_level: bool,
    pub with_target: bool,
    pub with_thread_ids: bool,
    pub with_thread_names: bool,
    pub with_source_location: bool,
}

impl ConfigView {
    /// A configuration is well formed when its filter expression is non-empty.
    pub open spec fn wf(self) -> bool {
        self.filter_level.len() > 0
    }
}

/// The options every freshly built configuration starts from: severity
/// `info`, color on, file-only output, directory `./logs`, file name
/// `my-service.log`, daily rotation, pretty style, all inclusion flags on.
pub open spec fn default_view() -> ConfigView {
    ConfigView {
        filter_level: "info"@,
        with_ansi: true,
        to_stdout: false,
        directory: "./logs"@,
        file_name: "my-service.log"@,
        rolling: Rotation::Daily,
        format: OutputFormat::Pretty,
        with_level: true,
        with_target: true,
        with_thread_ids: true,
        with_thread_names: true,
        with_source_location: true,
    }
}

/// The tracing configuration properties.
#[derive(Debug, Clone)]
pub struct TracingConfig {
    pub filter_level: String,
    pub with_ansi: bool,
    pub to_stdout: bool,
    pub directory: String,
    pub file_name: String,
    pub rolling: Rotation,
    pub format: OutputFormat,
    pub with_level: bool,
    pub with_target: bool,
    pub with_thread_ids: bool,
    pub with_thread_names: bool,
    pub with_source_location: bool,
}

impl View for TracingConfig {
    type V = ConfigView;

    open spec fn view(&self) -> ConfigView {
        ConfigView {
            filter_level: self.filter_level@,
            with_ansi: self.with_ansi,
            to_stdout: self.to_stdout,
            directory: self.directory@,
            file_name: self.file_name@,
            rolling: self.rolling,
            format: self.format,
            with_level: self.with_level,
            with_target: self.with_target,
            with_thread_ids: self.with_thread_ids,
            with_thread_names: self.with_thread_names,
            with_source_location: self.with_source_location,
        }
    }
}

impl Default for TracingConfig {
    /// Builds the default configuration.
    fn default() -> (r: Self)
        ensures
            r@ == default_view(),
            r@.wf(),
    {
        proof {
            reveal_strlit("info");
        }
        TracingConfig {
            filter_level: "info".to_owned(),
            with_ansi: true,
            to_stdout: false,
            directory: "./logs".to_owned(),
            file_name: "my-service.log".to_owned(),
            rolling: Rotation::Daily,
            format: OutputFormat::Pretty,
            with_level: true,
            with_target: true,
            with_thread_ids: true,
            with_thread_names: true,
            with_source_location: true,
        }
    }
}

impl TracingConfig {
    /// Sets the severity or filter expression, for example `info` or
    /// `mycrate=trace`.  Any non-empty string is accepted verbatim; its
    /// interpretation is deferred to the filter evaluator at startup.
    pub fn filter_level(self, filter_level: &str) -> (r: Self)
        requires
            filter_level@.len() > 0,
        ensures
            r@ == (ConfigView { filter_level: filter_level@, ..self@ }),
            r@.wf(),
    {
        let mut c = self;
        c.filter_level = filter_level.to_owned();
        c
    }

    /// Chooses whether ANSI color symbols are rendered.
    pub fn with_ansi(self, with_ansi: bool) -> (r: Self)
        ensures
            r@ == (ConfigView { with_ansi: with_ansi, ..self@ }),
    {
        let mut c = self;
        c.with_ansi = with_ansi;
        c
    }

    /// Chooses whether records are also appended to standard output, in
    /// addition to the log file.
    pub fn to_stdout(self, to_stdout: bool) -> (r: Self)
        ensures
            r@ == (ConfigView { to_stdout: to_stdout, ..self@ }),
    {
        let mut c = self;
        c.to_stdout = to_stdout;
        c
    }

    /// Sets the log file directory.
    pub fn directory(self, directory: &str) -> (r: Self)
        ensures
            r@ == (ConfigView { directory: directory@, ..self@ }),
    {
        let mut c = self;
        c.directory = directory.to_owned();
        c
    }

    /// Sets the log file name.
    pub fn file_name(self, file_name: &str) -> (r: Self)
        ensures
            r@ == (ConfigView { file_name: file_name@, ..self@ }),
    {
        let mut c = self;
        c.file_name = file_name.to_owned();
        c
    }

    /// Sets the rotation policy.  Valid values: `minutely` | `hourly` |
    /// `daily` | `never`; every other value is a configuration error.
    pub fn rolling(self, rolling: &str) -> (r: Self)
        requires
            is_rotation_token(rolling@),
        ensures
            r@ == (ConfigView { rolling: rotation_of(rolling@).unwrap(), ..self@ }),
    {
        let mut c = self;
        match parse_rotation(rolling) {
            Some(rot) => {
                c.rolling = rot;
                c
            },
            None => unreached(),
        }
    }

    /// Sets the output style.  Valid values: `pretty` | `compact` | `json` |
    /// `full`; every other value is a configuration error.
    pub fn format(self, format: &str) -> (r: Self)
        requires
            is_format_token(format@),
        ensures
            r@ == (ConfigView { format: format_of(format@).unwrap(), ..self@ }),
    {
        let mut c = self;
        match parse_format(format) {
            Some(f) => {
                c.format = f;
                c
            },
            None => unreached(),
        }
    }

    /// Chooses whether levels are included in formatted output.
    pub fn with_level(self, with_level: bool) -> (r: Self)
        ensures
            r@ == (ConfigView { with_level: with_level, ..self@ }),
    {
        let mut c = self;
        c.with_level = with_level;
        c
    }

    /// Chooses whether targets are included.
    pub fn with_target(self, with_target: bool) -> (r: Self)
        ensures
            r@ == (ConfigView { with_target: with_target, ..self@ }),
    {
        let mut c = self;
        c.with_target = with_target;
        c
    }

    /// Chooses whether the thread ID of the current thread is included.
    pub fn with_thread_ids(self, with_thread_ids: bool) -> (r: Self)
        ensures
            r@ == (ConfigView { with_thread_ids: with_thread_ids, ..self@ }),
    {
        let mut c = self;
        c.with_thread_ids = with_thread_ids;
        c
    }

    /// Chooses whether the name of the current thread is included.
    pub fn with_thread_names(self, with_thread_names: bool) -> (r: Self)
        ensures
            r@ == (ConfigView { with_thread_names: with_thread_names, ..self@ }),
    {
        let mut c = self;
        c.with_thread_names = with_thread_names;
        c
    }

    /// Chooses whether the source location is included.
    pub fn with_source_location(self, with_source_location: bool) -> (r: Self)
        ensures
            r@ == (ConfigView { with_source_location: with_source_location, ..self@ }),
    {
        let mut c = self;
        c.with_source_location = with_source_location;
        c
    }
}

} // verus!
