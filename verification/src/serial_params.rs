//! Typed serial line parameters.
//!
//! These types are the single source of truth for parity, flow control and
//! framing. Parsing rejects unknown values instead of silently falling back to
//! a default, and every consumer shares the same representation and the same
//! textual form.
use vstd::prelude::*;
use vstd::string::*;

use crate::text;
use crate::text::{concat3, decimal, parse_u64, same, to_lower, trim};

verus! {

/// Default baud rate used when nothing else is specified.
pub const DEFAULT_BAUD: u32 = 115_200;

/// Baud rates offered as presets in the GUI and TUI.
pub const BAUD_PRESETS: [u32; 8] = [
    9600,
    19200,
    38400,
    57600,
    115_200,
    230_400,
    460_800,
    921_600,
];

/// Default duration of an RS-232 BREAK pulse.
pub const DEFAULT_BREAK_MS: u64 = 250;

/// Parity bit configuration.
#[derive(Debug, Clone, Copy, PartialEq, Eq, Structural)]
pub enum Parity {
    /// No parity bit.
    Off,
    /// Odd parity.
    Odd,
    /// Even parity.
    Even,
}

/// What a parameter is compared by: its text without surrounding white space,
/// in lower case.
pub open spec fn normal(s: Seq<char>) -> Seq<char> {
    text::lower(text::trimmed(s))
}

fn normalized(s: &str) -> (r: String)
    ensures
        r@ == normal(s@),
{
    to_lower(trim(s).as_str())
}

/// What a text means as a parity.
pub open spec fn parity_of(s: Seq<char>) -> Option<Parity> {
    let n = normal(s);
    if n == "none"@ || n == "n"@ {
        Some(Parity::Off)
    } else if n == "odd"@ || n == "o"@ {
        Some(Parity::Odd)
    } else if n == "even"@ || n == "e"@ {
        Some(Parity::Even)
    } else {
        None
    }
}

impl Parity {
    /// Single-letter form used in framing summaries such as `8N1`.
    pub open spec fn spec_letter(self) -> char {
        match self {
            Parity::Off => 'N',
            Parity::Odd => 'O',
            Parity::Even => 'E',
        }
    }

    /// Single-letter form used in framing summaries such as `8N1`.
    pub fn letter(self) -> (r: char)
        ensures
            r == self.spec_letter(),
    {
        match self {
            Parity::Off => 'N',
            Parity::Odd => 'O',
            Parity::Even => 'E',
        }
    }

    /// What a choice of this parity reads.
    pub open spec fn is_labelled(self, r: &'static str) -> bool {
        r@ == match self {
            Parity::Off => "None (N)"@,
            Parity::Odd => "Odd (O)"@,
            Parity::Even => "Even (E)"@,
        }
    }

    /// Human-readable label for user interfaces.
    pub fn label(self) -> (r: &'static str)
        ensures
            self.is_labelled(r),
    {
        match self {
            Parity::Off => "None (N)",
            Parity::Odd => "Odd (O)",
            Parity::Even => "Even (E)",
        }
    }

    /// All variants, in presentation order.
    pub fn all() -> (r: [Parity; 3])
        ensures
            r@ == seq![Parity::Off, Parity::Even, Parity::Odd],
    {
        let r = [Parity::Off, Parity::Even, Parity::Odd];
        assert(r@ =~= seq![Parity::Off, Parity::Even, Parity::Odd]);
        r
    }

    /// The textual form.
    pub open spec fn name(self) -> Seq<char> {
        match self {
            Parity::Off => "none"@,
            Parity::Odd => "odd"@,
            Parity::Even => "even"@,
        }
    }

    /// The textual form.
    pub fn to_string(&self) -> (r: String)
        ensures
            r@ == self.name(),
    {
        match self {
            Parity::Off => "none".to_owned(),
            Parity::Odd => "odd".to_owned(),
            Parity::Even => "even".to_owned(),
        }
    }

    /// Which parity a text stands for, and what is said of another.
    pub open spec fn reads(s: &str, r: Result<Parity, ParamError>) -> bool {
        match r {
            Ok(p) => parity_of(s@) == Some(p),
            Err(ParamError::Parity(t)) => parity_of(s@) is None && t@ == normal(s@),
            Err(_) => false,
        }
    }

    /// Read a parity; anything but a known name is refused.
    pub fn parse(s: &str) -> (r: Result<Parity, ParamError>)
        ensures
            Self::reads(s, r),
    {
        let n = normalized(s);
        let t = n.as_str();
        if same(t, "none") || same(t, "n") {
            Ok(Parity::Off)
        } else if same(t, "odd") || same(t, "o") {
            Ok(Parity::Odd)
        } else if same(t, "even") || same(t, "e") {
            Ok(Parity::Even)
        } else {
            Err(ParamError::Parity(n))
        }
    }
}

impl Default for Parity {
    fn default() -> (r: Parity)
        ensures
            r == Parity::Off,
    {
        Parity::Off
    }
}

impl std::str::FromStr for Parity {
    type Err = ParamError;

    fn from_str(s: &str) -> Result<Parity, ParamError> {
        Parity::parse(s)
    }
}

/// Hardware or software flow control.
#[derive(Debug, Clone, Copy, PartialEq, Eq, Structural)]
pub enum FlowControl {
    /// No flow control.
    Off,
    /// XON/XOFF.
    Software,
    /// RTS/CTS.
    Hardware,
}

/// What a text means as flow control.
pub open spec fn flow_control_of(s: Seq<char>) -> Option<FlowControl> {
    let n = normal(s);
    if n == "none"@ || n == "off"@ {
        Some(FlowControl::Off)
    } else if n == "software"@ || n == "xonxoff"@ || n == "xon/xoff"@ {
        Some(FlowControl::Software)
    } else if n == "hardware"@ || n == "rtscts"@ || n == "rts/cts"@ {
        Some(FlowControl::Hardware)
    } else {
        None
    }
}

impl FlowControl {
    /// What a choice of this flow control reads.
    pub open spec fn is_labelled(self, r: &'static str) -> bool {
        r@ == match self {
            FlowControl::Off => "None"@,
            FlowControl::Software => "XON/XOFF"@,
            FlowControl::Hardware => "RTS/CTS"@,
        }
    }

    /// Human-readable label for user interfaces.
    pub fn label(self) -> (r: &'static str)
        ensures
            self.is_labelled(r),
    {
        match self {
            FlowControl::Off => "None",
            FlowControl::Software => "XON/XOFF",
            FlowControl::Hardware => "RTS/CTS",
        }
    }

    /// Suffix appended to a framing summary, empty when no flow control is set.
    pub open spec fn spec_suffix(self) -> Seq<char> {
        match self {
            FlowControl::Off => ""@,
            FlowControl::Software => " (XON/XOFF)"@,
            FlowControl::Hardware => " (RTS/CTS)"@,
        }
    }

    /// Suffix appended to a framing summary, empty when no flow control is set.
    pub fn summary_suffix(self) -> (r: &'static str)
        ensures
            r@ == self.spec_suffix(),
    {
        match self {
            FlowControl::Off => "",
            FlowControl::Software => " (XON/XOFF)",
            FlowControl::Hardware => " (RTS/CTS)",
        }
    }

    /// All variants, in presentation order.
    pub fn all() -> (r: [FlowControl; 3])
        ensures
            r@ == seq![FlowControl::Off, FlowControl::Software, FlowControl::Hardware],
    {
        let r = [FlowControl::Off, FlowControl::Software, FlowControl::Hardware];
        assert(r@ =~= seq![FlowControl::Off, FlowControl::Software, FlowControl::Hardware]);
        r
    }

    /// The textual form.
    pub open spec fn name(self) -> Seq<char> {
        match self {
            FlowControl::Off => "none"@,
            FlowControl::Software => "software"@,
            FlowControl::Hardware => "hardware"@,
        }
    }

    /// The textual form.
    pub fn to_string(&self) -> (r: String)
        ensures
            r@ == self.name(),
    {
        match self {
            FlowControl::Off => "none".to_owned(),
            FlowControl::Software => "software".to_owned(),
            FlowControl::Hardware => "hardware".to_owned(),
        }
    }

    /// Which flow control a text stands for, and what is said of another.
    pub open spec fn reads(s: &str, r: Result<FlowControl, ParamError>) -> bool {
        match r {
            Ok(f) => flow_control_of(s@) == Some(f),
            Err(ParamError::FlowControl(t)) => flow_control_of(s@) is None && t@ == normal(
                s@,
            ),
            Err(_) => false,
        }
    }

    /// Read a flow control; anything but a known name is refused.
    pub fn parse(s: &str) -> (r: Result<FlowControl, ParamError>)
        ensures
            Self::reads(s, r),
    {
        let n = normalized(s);
        let t = n.as_str();
        if same(t, "none") || same(t, "off") {
            Ok(FlowControl::Off)
        } else if same(t, "software") || same(t, "xonxoff") || same(t, "xon/xoff") {
            Ok(FlowControl::Software)
        } else if same(t, "hardware") || same(t, "rtscts") || same(t, "rts/cts") {
            Ok(FlowControl::Hardware)
        } else {
            Err(ParamError::FlowControl(n))
        }
    }
}

impl Default for FlowControl {
    fn default() -> (r: FlowControl)
        ensures
            r == FlowControl::Off,
    {
        FlowControl::Off
    }
}

impl std::str::FromStr for FlowControl {
    type Err = ParamError;

    fn from_str(s: &str) -> Result<FlowControl, ParamError> {
        FlowControl::parse(s)
    }
}

/// Number of data bits per character: five through eight.
#[derive(Debug, Clone, Copy, PartialEq, Eq, PartialOrd, Ord, Structural)]
pub enum DataBits {
    Five,
    Six,
    Seven,
    Eight,
}

impl DataBits {
    /// Five data bits.
    pub const FIVE: DataBits = DataBits::Five;

    /// Six data bits.
    pub const SIX: DataBits = DataBits::Six;

    /// Seven data bits.
    pub const SEVEN: DataBits = DataBits::Seven;

    /// Eight data bits.
    pub const EIGHT: DataBits = DataBits::Eight;

    /// The numeric value.
    pub open spec fn value(self) -> u8 {
        match self {
            DataBits::Five => 5,
            DataBits::Six => 6,
            DataBits::Seven => 7,
            DataBits::Eight => 8,
        }
    }

    /// All valid values, in presentation order.
    pub fn all() -> (r: [DataBits; 4])
        ensures
            r@ == seq![DataBits::Eight, DataBits::Seven, DataBits::Six, DataBits::Five],
    {
        let r = [DataBits::Eight, DataBits::Seven, DataBits::Six, DataBits::Five];
        assert(r@ =~= seq![DataBits::Eight, DataBits::Seven, DataBits::Six, DataBits::Five]);
        r
    }

    /// Numeric value.
    pub fn get(self) -> (r: u8)
        ensures
            r == self.value(),
    {
        match self {
            DataBits::Five => 5,
            DataBits::Six => 6,
            DataBits::Seven => 7,
            DataBits::Eight => 8,
        }
    }

    /// The number of data bits with the given value, if there is one.
    pub open spec fn of(n: int) -> Option<DataBits> {
        if n == 5 {
            Some(DataBits::Five)
        } else if n == 6 {
            Some(DataBits::Six)
        } else if n == 7 {
            Some(DataBits::Seven)
        } else if n == 8 {
            Some(DataBits::Eight)
        } else {
            None
        }
    }

    /// Which number of data bits a value stands for, and what is said of another.
    pub open spec fn takes(value: u8, r: Result<DataBits, ParamError>) -> bool {
        r == (match DataBits::of(value as int) {
            Some(d) => Ok::<DataBits, ParamError>(d),
            None => Err(ParamError::DataBits(value)),
        })
    }

    /// Check a number of data bits.
    pub fn new(value: u8) -> (r: Result<DataBits, ParamError>)
        ensures
            Self::takes(value, r),
    {
        match value {
            5 => Ok(DataBits::Five),
            6 => Ok(DataBits::Six),
            7 => Ok(DataBits::Seven),
            8 => Ok(DataBits::Eight),
            other => Err(ParamError::DataBits(other)),
        }
    }

    /// The textual form.
    pub fn to_string(&self) -> (r: String)
        ensures
            r@ == text::dec_nat(self.value() as nat),
    {
        decimal(self.get() as u64)
    }

    /// Which number of data bits a text stands for, and what is said of another.
    pub open spec fn reads(s: &str, r: Result<DataBits, ParamError>) -> bool {
        match text::parse_nat(text::trimmed(s@), 255) {
            Some(n) => match DataBits::of(n as int) {
                Some(d) => r == Ok::<DataBits, ParamError>(d),
                None => r == Err::<DataBits, ParamError>(ParamError::DataBits(n as u8)),
            },
            None => r matches Err(ParamError::DataBitsText(t)) && t@ == s@,
        }
    }

    /// Read a number of data bits.
    pub fn parse(s: &str) -> (r: Result<DataBits, ParamError>)
        ensures
            Self::reads(s, r),
    {
        match parse_u64(trim(s).as_str(), 255) {
            Some(n) => DataBits::new(n as u8),
            None => Err(ParamError::DataBitsText(s.to_owned())),
        }
    }
}

impl Default for DataBits {
    fn default() -> (r: DataBits)
        ensures
            r == DataBits::Eight,
    {
        DataBits::Eight
    }
}

impl TryFrom<u8> for DataBits {
    type Error = ParamError;

    fn try_from(value: u8) -> (r: Result<DataBits, ParamError>) {
        DataBits::new(value)
    }
}

impl vstd::std_specs::convert::TryFromSpecImpl<u8> for DataBits {
    open spec fn obeys_try_from_spec() -> bool {
        true
    }

    open spec fn try_from_spec(value: u8) -> Result<DataBits, ParamError> {
        match DataBits::of(value as int) {
            Some(d) => Ok(d),
            None => Err(ParamError::DataBits(value)),
        }
    }
}

impl From<DataBits> for u8 {
    fn from(value: DataBits) -> (r: u8) {
        value.get()
    }
}

impl vstd::std_specs::convert::FromSpecImpl<DataBits> for u8 {
    open spec fn obeys_from_spec() -> bool {
        true
    }

    open spec fn from_spec(value: DataBits) -> u8 {
        value.value()
    }
}

impl std::str::FromStr for DataBits {
    type Err = ParamError;

    fn from_str(s: &str) -> Result<DataBits, ParamError> {
        DataBits::parse(s)
    }
}

/// Number of stop bits: one or two.
#[derive(Debug, Clone, Copy, PartialEq, Eq, PartialOrd, Ord, Structural)]
pub enum StopBits {
    One,
    Two,
}

impl StopBits {
    /// One stop bit.
    pub const ONE: StopBits = StopBits::One;

    /// Two stop bits.
    pub const TWO: StopBits = StopBits::Two;

    /// The numeric value.
    pub open spec fn value(self) -> u8 {
        match self {
            StopBits::One => 1,
            StopBits::Two => 2,
        }
    }

    /// All valid values, in presentation order.
    pub fn all() -> (r: [StopBits; 2])
        ensures
            r@ == seq![StopBits::One, StopBits::Two],
    {
        let r = [StopBits::One, StopBits::Two];
        assert(r@ =~= seq![StopBits::One, StopBits::Two]);
        r
    }

    /// Numeric value.
    pub fn get(self) -> (r: u8)
        ensures
            r == self.value(),
    {
        match self {
            StopBits::One => 1,
            StopBits::Two => 2,
        }
    }

    /// The number of stop bits with the given value, if there is one.
    pub open spec fn of(n: int) -> Option<StopBits> {
        if n == 1 {
            Some(StopBits::One)
        } else if n == 2 {
            Some(StopBits::Two)
        } else {
            None
        }
    }

    /// Which number of stop bits a value stands for, and what is said of another.
    pub open spec fn takes(value: u8, r: Result<StopBits, ParamError>) -> bool {
        r == (match StopBits::of(value as int) {
            Some(d) => Ok::<StopBits, ParamError>(d),
            None => Err(ParamError::StopBits(value)),
        })
    }

    /// Check a number of stop bits.
    pub fn new(value: u8) -> (r: Result<StopBits, ParamError>)
        ensures
            Self::takes(value, r),
    {
        match value {
            1 => Ok(StopBits::One),
            2 => Ok(StopBits::Two),
            other => Err(ParamError::StopBits(other)),
        }
    }

    /// The textual form.
    pub fn to_string(&self) -> (r: String)
        ensures
            r@ == text::dec_nat(self.value() as nat),
    {
        decimal(self.get() as u64)
    }

    /// Which number of stop bits a text stands for, and what is said of another.
    pub open spec fn reads(s: &str, r: Result<StopBits, ParamError>) -> bool {
        match text::parse_nat(text::trimmed(s@), 255) {
            Some(n) => match StopBits::of(n as int) {
                Some(d) => r == Ok::<StopBits, ParamError>(d),
                None => r == Err::<StopBits, ParamError>(ParamError::StopBits(n as u8)),
            },
            None => r matches Err(ParamError::StopBitsText(t)) && t@ == s@,
        }
    }

    /// Read a number of stop bits.
    pub fn parse(s: &str) -> (r: Result<StopBits, ParamError>)
        ensures
            Self::reads(s, r),
    {
        match parse_u64(trim(s).as_str(), 255) {
            Some(n) => StopBits::new(n as u8),
            None => Err(ParamError::StopBitsText(s.to_owned())),
        }
    }
}

impl Default for StopBits {
    fn default() -> (r: StopBits)
        ensures
            r == StopBits::One,
    {
        StopBits::One
    }
}

impl TryFrom<u8> for StopBits {
    type Error = ParamError;

    fn try_from(value: u8) -> (r: Result<StopBits, ParamError>) {
        StopBits::new(value)
    }
}

impl vstd::std_specs::convert::TryFromSpecImpl<u8> for StopBits {
    open spec fn obeys_try_from_spec() -> bool {
        true
    }

    open spec fn try_from_spec(value: u8) -> Result<StopBits, ParamError> {
        match StopBits::of(value as int) {
            Some(d) => Ok(d),
            None => Err(ParamError::StopBits(value)),
        }
    }
}

impl From<StopBits> for u8 {
    fn from(value: StopBits) -> (r: u8) {
        value.get()
    }
}

impl vstd::std_specs::convert::FromSpecImpl<StopBits> for u8 {
    open spec fn obeys_from_spec() -> bool {
        true
    }

    open spec fn from_spec(value: StopBits) -> u8 {
        value.value()
    }
}

impl std::str::FromStr for StopBits {
    type Err = ParamError;

    fn from_str(s: &str) -> Result<StopBits, ParamError> {
        StopBits::parse(s)
    }
}

/// A rejected serial parameter value.
#[derive(Debug, Clone, PartialEq, Eq)]
pub enum ParamError {
    Parity(String),
    FlowControl(String),
    DataBits(u8),
    DataBitsText(String),
    StopBits(u8),
    StopBitsText(String),
    Baud(u32),
}

impl ParamError {
    /// The message of the error.
    pub open spec fn message(self) -> Seq<char> {
        match self {
            ParamError::Parity(t) => "invalid parity '"@ + t@
                + "', expected one of: none, odd, even"@,
            ParamError::FlowControl(t) => "invalid flow control '"@ + t@
                + "', expected one of: none, software, hardware"@,
            ParamError::DataBits(n) => "invalid data bits "@ + text::dec_nat(n as nat)
                + ", expected 5, 6, 7 or 8"@,
            ParamError::DataBitsText(t) => "invalid data bits '"@ + t@
                + "', expected 5, 6, 7 or 8"@,
            ParamError::StopBits(n) => "invalid stop bits "@ + text::dec_nat(n as nat)
                + ", expected 1 or 2"@,
            ParamError::StopBitsText(t) => "invalid stop bits '"@ + t@ + "', expected 1 or 2"@,
            ParamError::Baud(n) => "invalid baud rate "@ + text::dec_nat(n as nat)
                + ", expected a value greater than zero"@,
        }
    }

    /// The message of the error.
    pub fn to_string(&self) -> (r: String)
        ensures
            r@ == self.message(),
    {
        match self {
            ParamError::Parity(t) => concat3(
                "invalid parity '",
                t.as_str(),
                "', expected one of: none, odd, even",
            ),
            ParamError::FlowControl(t) => concat3(
                "invalid flow control '",
                t.as_str(),
                "', expected one of: none, software, hardware",
            ),
            ParamError::DataBits(n) => concat3(
                "invalid data bits ",
                decimal(*n as u64).as_str(),
                ", expected 5, 6, 7 or 8",
            ),
            ParamError::DataBitsText(t) => concat3(
                "invalid data bits '",
                t.as_str(),
                "', expected 5, 6, 7 or 8",
            ),
            ParamError::StopBits(n) => concat3(
                "invalid stop bits ",
                decimal(*n as u64).as_str(),
                ", expected 1 or 2",
            ),
            ParamError::StopBitsText(t) => concat3(
                "invalid stop bits '",
                t.as_str(),
                "', expected 1 or 2",
            ),
            ParamError::Baud(n) => concat3(
                "invalid baud rate ",
                decimal(*n as u64).as_str(),
                ", expected a value greater than zero",
            ),
        }
    }
}

/// A baud rate is taken unless it is zero.
pub open spec fn takes_baud(baud: u32, r: Result<u32, ParamError>) -> bool {
    r == (if baud == 0 {
        Err::<u32, ParamError>(ParamError::Baud(0))
    } else {
        Ok(baud)
    })
}

/// Validate a baud rate: every rate but zero is accepted.
pub fn validate_baud(baud: u32) -> (r: Result<u32, ParamError>)
    ensures
        takes_baud(baud, r),
{
    if baud == 0 {
        Err(ParamError::Baud(baud))
    } else {
        Ok(baud)
    }
}

// ---------------------------------------------------------------------------
// What is written is read back
// ---------------------------------------------------------------------------

/// Whether all characters are lower-case letters.
pub open spec fn plain_word(s: Seq<char>) -> bool {
    forall|i: int| 0 <= i < s.len() ==> 'a' <= #[trigger] s[i] <= 'z'
}

/// A word of lower-case letters is its own normal form.
pub proof fn lemma_plain_word(s: Seq<char>)
    requires
        plain_word(s),
    ensures
        normal(s) == s,
{
    reveal(text::white_space);
    if s.len() > 0 {
        assert('a' <= s[0] <= 'z');
        assert('a' <= s[s.len() - 1] <= 'z');
    }
    assert(text::trimmed(s) == s);
    assert(text::lower(s) =~= s);
}

/// The textual form of every parity reads back as that parity.
pub proof fn parity_reads_back(p: Parity)
    ensures
        parity_of(p.name()) == Some(p),
{
    reveal_strlit("none");
    reveal_strlit("odd");
    reveal_strlit("even");
    reveal_strlit("n");
    reveal_strlit("o");
    reveal_strlit("e");
    lemma_plain_word(p.name());
    assert(p.name().len() > 1);
    assert("none"@[0] == 'n');
    assert("odd"@[0] == 'o');
    assert("even"@[0] == 'e');
}

/// The textual form of every flow control reads back as that flow control.
pub proof fn flow_control_reads_back(f: FlowControl)
    ensures
        flow_control_of(f.name()) == Some(f),
{
    reveal_strlit("none");
    reveal_strlit("off");
    reveal_strlit("software");
    reveal_strlit("xonxoff");
    reveal_strlit("xon/xoff");
    reveal_strlit("hardware");
    lemma_plain_word(f.name());
    assert("none"@[0] == 'n');
    assert("software"@[0] == 's');
    assert("hardware"@[0] == 'h');
    assert("xonxoff"@[0] == 'x');
    assert("xon/xoff"@[0] == 'x');
}

/// The textual form of every number of data bits reads back as that number.
pub proof fn data_bits_read_back(d: DataBits)
    ensures
        text::parse_nat(text::trimmed(text::dec_nat(d.value() as nat)), 255) == Some(
            d.value() as nat,
        ),
        DataBits::of(d.value() as int) == Some(d),
{
    let s = text::dec_nat(d.value() as nat);
    lemma_digits_trimmed(d.value() as nat);
    text::decimal_reads_back(d.value() as nat, 255);
}

/// The textual form of every number of stop bits reads back as that number.
pub proof fn stop_bits_read_back(d: StopBits)
    ensures
        text::parse_nat(text::trimmed(text::dec_nat(d.value() as nat)), 255) == Some(
            d.value() as nat,
        ),
        StopBits::of(d.value() as int) == Some(d),
{
    lemma_digits_trimmed(d.value() as nat);
    text::decimal_reads_back(d.value() as nat, 255);
}

proof fn lemma_digits_trimmed(n: nat)
    ensures
        text::trimmed(text::dec_nat(n)) == text::dec_nat(n),
{
    let s = text::dec_nat(n);
    text::lemma_dec_nat(n);
    assert(text::is_digit(s[0]));
    assert(text::is_digit(s[s.len() - 1]));
    reveal(text::white_space);
}

} // verus!
