//! The app's own picture of users, nodes, positions and channels, common to both kinds of mesh.
use crate::channel_id::NodeId;
use crate::text::{
    decimal_digits, digits_value, is_digit, lemma_decimal_digits_value, lemma_padded_two_digits_value, padded_digits,
    push_char, push_decimal, push_padded, push_str,
};
use vstd::prelude::*;

verus! {

/// A point in time: seconds since the Unix epoch.
#[derive(Debug, Default, Clone, Copy, PartialEq, PartialOrd, Structural)]
pub struct TimeStamp(pub u32);

impl TimeStamp {
    /// The seconds since the epoch that this time stamp holds.
    pub fn secs(&self) -> (r: u32)
        ensures
            r == self.0,
    {
        self.0
    }

    /// The span from `earlier` to this time stamp, or zero when `earlier` is later.
    pub fn saturating_sub(self, earlier: TimeStamp) -> (r: TimeStamp)
        ensures
            r.0 == (if self.0 >= earlier.0 { self.0 - earlier.0 } else { 0 }),
    {
        TimeStamp(self.0.saturating_sub(earlier.0))
    }
}

/// A user, as the app shows it; a superset of what the different meshes report of a user.
#[derive(Debug, PartialEq)]
pub struct MCUser {
    pub id: String,
    pub long_name: String,
    pub short_name: String,
    pub hw_model_str: String,
    pub hw_model: i32,
    pub is_licensed: bool,
    pub role_str: String,
    pub role: i32,
    pub public_key: Vec<u8>,
    pub is_unmessagable: bool,
}

/// The contents of an [MCUser] as values.
pub struct MCUserView {
    pub id: Seq<char>,
    pub long_name: Seq<char>,
    pub short_name: Seq<char>,
    pub hw_model_str: Seq<char>,
    pub hw_model: i32,
    pub is_licensed: bool,
    pub role_str: Seq<char>,
    pub role: i32,
    pub public_key: Seq<u8>,
    pub is_unmessagable: bool,
}

impl View for MCUser {
    type V = MCUserView;

    open spec fn view(&self) -> MCUserView {
        MCUserView {
            id: self.id@,
            long_name: self.long_name@,
            short_name: self.short_name@,
            hw_model_str: self.hw_model_str@,
            hw_model: self.hw_model,
            is_licensed: self.is_licensed,
            role_str: self.role_str@,
            role: self.role,
            public_key: self.public_key@,
            is_unmessagable: self.is_unmessagable,
        }
    }
}

/// A copy of a byte vector.
pub fn copy_bytes(v: &Vec<u8>) -> (r: Vec<u8>)
    ensures
        r@ == v@,
{
    let mut r: Vec<u8> = Vec::new();
    let mut i: usize = 0;
    while i < v.len()
        invariant
            i <= v@.len(),
            r@ == v@.subrange(0, i as int),
        decreases v@.len() - i,
    {
        r.push(v[i]);
        i = i + 1;
        assert(r@ =~= v@.subrange(0, i as int));
    }
    assert(v@.subrange(0, v@.len() as int) =~= v@);
    r
}

impl Clone for MCUser {
    fn clone(&self) -> (r: Self)
        ensures
            r@ == self@,
    {
        MCUser {
            id: self.id.clone(),
            long_name: self.long_name.clone(),
            short_name: self.short_name.clone(),
            hw_model_str: self.hw_model_str.clone(),
            hw_model: self.hw_model,
            is_licensed: self.is_licensed,
            role_str: self.role_str.clone(),
            role: self.role,
            public_key: copy_bytes(&self.public_key),
            is_unmessagable: self.is_unmessagable,
        }
    }
}

/// The text shown for a user: who it is and what hardware it runs on.
pub open spec fn user_text(user: MCUser) -> Seq<char> {
    "\u{24d8} from '"@ + user.long_name@ + "' ('"@ + user.short_name@ + "'), id = '"@ + user.id@
        + "', with hardware '"@ + user.hw_model_str@ + "'"@
}

impl MCUser {
    /// A user with every text empty, every number zero and every flag off.
    pub fn empty() -> (u: MCUser)
        ensures
            u.id@ == Seq::<char>::empty(),
            u.long_name@ == Seq::<char>::empty(),
            u.short_name@ == Seq::<char>::empty(),
            u.hw_model_str@ == Seq::<char>::empty(),
            u.hw_model == 0,
            !u.is_licensed,
            u.role_str@ == Seq::<char>::empty(),
            u.role == 0,
            u.public_key@ == Seq::<u8>::empty(),
            !u.is_unmessagable,
    {
        MCUser {
            id: String::new(),
            long_name: String::new(),
            short_name: String::new(),
            hw_model_str: String::new(),
            hw_model: 0,
            is_licensed: false,
            role_str: String::new(),
            role: 0,
            public_key: Vec::new(),
            is_unmessagable: false,
        }
    }

    /// Render the user as the line shown in a conversation.
    pub fn display_string(&self) -> (s: String)
        ensures
            s@ == user_text(*self),
    {
        let mut s = String::new();
        push_str(&mut s, "\u{24d8} from '");
        push_str(&mut s, self.long_name.as_str());
        push_str(&mut s, "' ('");
        push_str(&mut s, self.short_name.as_str());
        push_str(&mut s, "'), id = '");
        push_str(&mut s, self.id.as_str());
        push_str(&mut s, "', with hardware '");
        push_str(&mut s, self.hw_model_str.as_str());
        push_str(&mut s, "'");
        s
    }
}

/// A position, as the app keeps it. Latitude and longitude are in units of 1e-7 degrees.
#[derive(Debug, Clone, Copy, Default, PartialEq, Structural)]
pub struct MCPosition {
    pub latitude_i: i32,
    pub longitude_i: i32,
    pub altitude: Option<i32>,
    pub time: u32,
    pub location_source: i32,
    pub altitude_source: i32,
    pub timestamp: TimeStamp,
    pub timestamp_millis_adjust: i32,
    pub altitude_hae: Option<i32>,
    pub altitude_geoidal_separation: Option<i32>,
    pub pdop: u32,
    pub hdop: u32,
    pub vdop: u32,
    pub gps_accuracy: u32,
    pub ground_speed: Option<u32>,
    pub ground_track: Option<u32>,
    pub fix_quality: u32,
    pub fix_type: u32,
    pub sats_in_view: u32,
    pub sensor_id: u32,
    pub next_update: u32,
    pub seq_number: u32,
    pub precision_bits: u32,
}

impl MCPosition {
    /// A position at the given latitude and longitude (in 1e-7 degrees) with every other field
    /// zero or absent.
    pub fn at(latitude_i: i32, longitude_i: i32) -> (p: MCPosition)
        ensures
            p == position_at(latitude_i, longitude_i),
    {
        MCPosition {
            latitude_i,
            longitude_i,
            altitude: None,
            time: 0,
            location_source: 0,
            altitude_source: 0,
            timestamp: TimeStamp(0),
            timestamp_millis_adjust: 0,
            altitude_hae: None,
            altitude_geoidal_separation: None,
            pdop: 0,
            hdop: 0,
            vdop: 0,
            gps_accuracy: 0,
            ground_speed: None,
            ground_track: None,
            fix_quality: 0,
            fix_type: 0,
            sats_in_view: 0,
            sensor_id: 0,
            next_update: 0,
            seq_number: 0,
            precision_bits: 0,
        }
    }
}

/// The position at a latitude and longitude (in 1e-7 degrees) with every other field zero or
/// absent.
pub open spec fn position_at(latitude_i: i32, longitude_i: i32) -> MCPosition {
    MCPosition {
        latitude_i,
        longitude_i,
        altitude: None,
        time: 0,
        location_source: 0,
        altitude_source: 0,
        timestamp: TimeStamp(0),
        timestamp_millis_adjust: 0,
        altitude_hae: None,
        altitude_geoidal_separation: None,
        pdop: 0,
        hdop: 0,
        vdop: 0,
        gps_accuracy: 0,
        ground_speed: None,
        ground_track: None,
        fix_quality: 0,
        fix_type: 0,
        sats_in_view: 0,
        sensor_id: 0,
        next_update: 0,
        seq_number: 0,
        precision_bits: 0,
    }
}

/// A user known only by an id and names (and perhaps a hardware model), with every other field
/// empty, zero or off.
pub open spec fn named_user(id: Seq<char>, long_name: Seq<char>, short_name: Seq<char>, hw_model_str: Seq<char>) -> MCUserView {
    MCUserView {
        id,
        long_name,
        short_name,
        hw_model_str,
        hw_model: 0,
        is_licensed: false,
        role_str: Seq::empty(),
        role: 0,
        public_key: Seq::empty(),
        is_unmessagable: false,
    }
}

impl MCUser {
    /// A user known only by an id and names (and perhaps a hardware model).
    pub fn named(id: String, long_name: String, short_name: String, hw_model_str: String) -> (u: MCUser)
        ensures
            u@ == named_user(id@, long_name@, short_name@, hw_model_str@),
    {
        let mut u = MCUser::empty();
        u.id = id;
        u.long_name = long_name;
        u.short_name = short_name;
        u.hw_model_str = hw_model_str;
        u
    }
}

/// Magnitude of a coordinate held in 1e-7 degrees.
pub open spec fn coord_magnitude(v: i32) -> nat {
    if v < 0 { (-(v as int)) as nat } else { v as nat }
}

/// A coordinate in 1e-7 degrees written in degrees with all seven decimals, e.g. "-33.8567844".
pub open spec fn coord_text_7(v: i32) -> Seq<char> {
    let m = coord_magnitude(v);
    (if v < 0 { seq!['-'] } else { Seq::empty() }) + decimal_digits(m / 10_000_000) + seq!['.']
        + padded_digits(m % 10_000_000, 7)
}

/// A coordinate in 1e-7 degrees written in degrees rounded to two decimals, e.g. "-33.86";
/// halfway cases round away from zero.
pub open spec fn coord_text_2(v: i32) -> Seq<char> {
    let r = (coord_magnitude(v) + 50_000) / 100_000;
    (if v < 0 { seq!['-'] } else { Seq::empty() }) + decimal_digits(r / 100) + seq!['.']
        + padded_digits(r % 100, 2)
}

/// The text shown for a position in a conversation.
pub open spec fn position_text(p: MCPosition) -> Seq<char> {
    "\u{1f4cc} "@ + coord_text_2(p.latitude_i) + ", "@ + coord_text_2(p.longitude_i)
}

/// A coordinate written to two decimals reads as the coordinate rounded to the nearest
/// hundredth of a degree: a minus sign exactly for a negative coordinate, then digits, a point
/// and two digits, which together spell the magnitude in hundredths of a degree, within half a
/// hundredth of the coordinate's magnitude (in units of 1e-7 degrees).
pub proof fn lemma_coord_text_2_rounds(v: i32)
    ensures
        ({
            let t = coord_text_2(v);
            let k: int = if v < 0 { 1 } else { 0 };
            let n = t.len() as int;
            let shown = digits_value(t.subrange(k, n - 3)) * 100 + digits_value(t.subrange(n - 2, n));
            &&& n >= k + 4
            &&& (t[0] == '-') == (v < 0)
            &&& t[n - 3] == '.'
            &&& forall|i: int| k <= i < n && i != n - 3 ==> is_digit(#[trigger] t[i])
            &&& shown * 100_000 <= coord_magnitude(v) + 50_000
            &&& coord_magnitude(v) + 50_000 < shown * 100_000 + 100_000
        }),
{
    let m = coord_magnitude(v);
    let r = (m + 50_000) / 100_000;
    let sign: Seq<char> = if v < 0 { seq!['-'] } else { Seq::empty() };
    let d = decimal_digits(r / 100);
    let f = padded_digits(r % 100, 2);
    lemma_decimal_digits_value(r / 100);
    lemma_padded_two_digits_value(r % 100);
    let t = coord_text_2(v);
    assert(t == sign + d + seq!['.'] + f);
    let k: int = if v < 0 { 1 } else { 0 };
    let n = t.len() as int;
    assert(n == k + d.len() + 3);
    assert(t.subrange(k, n - 3) =~= d);
    assert(t.subrange(n - 2, n) =~= f);
    assert forall|i: int| k <= i < n && i != n - 3 implies is_digit(#[trigger] t[i]) by {
        if i < k + d.len() {
            assert(t[i] == d[i - k]);
        } else {
            assert(t[i] == f[i - n + 2]);
        }
    }
    if v >= 0 {
        assert(t[0] == d[0]);
    }
    assert((r / 100) * 100 + r % 100 == r) by (nonlinear_arith);
    assert(r * 100_000 <= m + 50_000 && m + 50_000 < r * 100_000 + 100_000) by (nonlinear_arith)
        requires
            r == (m + 50_000) / 100_000,
            m >= 0,
    ;
}

/// The text shown for a position reads, in order: the pin and a space, the latitude in degrees
/// to two decimals, a comma and a space, and the longitude in degrees to two decimals; nothing
/// else.
pub proof fn lemma_position_text_latitude_first(p: MCPosition)
    ensures
        ({
            let t = position_text(p);
            let lat = coord_text_2(p.latitude_i);
            let lon = coord_text_2(p.longitude_i);
            let n = lat.len() as int;
            &&& t.len() == 4 + lat.len() + lon.len()
            &&& t[0] == '\u{1f4cc}'
            &&& t[1] == ' '
            &&& t.subrange(2, 2 + n) == lat
            &&& t[2 + n] == ','
            &&& t[3 + n] == ' '
            &&& t.subrange(4 + n, t.len() as int) == lon
        }),
{
    reveal_strlit("\u{1f4cc} ");
    reveal_strlit(", ");
    let t = position_text(p);
    let lat = coord_text_2(p.latitude_i);
    let lon = coord_text_2(p.longitude_i);
    let n = lat.len() as int;
    assert(t.subrange(2, 2 + n) =~= lat);
    assert(t.subrange(4 + n, t.len() as int) =~= lon);
}

/// The map link that shows a position.
pub open spec fn location_url_text(p: MCPosition) -> Seq<char> {
    "https://maps.google.com/?q="@ + coord_text_7(p.latitude_i) + ","@ + coord_text_7(
        p.longitude_i,
    )
}

fn magnitude(v: i32) -> (m: u64)
    ensures
        m == coord_magnitude(v),
{
    if v < 0 {
        (-(v as i64)) as u64
    } else {
        v as u64
    }
}

fn push_coord_7(s: &mut String, v: i32)
    ensures
        final(s)@ == old(s)@ + coord_text_7(v),
{
    let m = magnitude(v);
    if v < 0 {
        push_char(s, '-');
    }
    push_decimal(s, m / 10_000_000);
    push_char(s, '.');
    push_padded(s, m % 10_000_000, 7);
    assert(s@ =~= old(s)@ + coord_text_7(v));
}

fn push_coord_2(s: &mut String, v: i32)
    ensures
        final(s)@ == old(s)@ + coord_text_2(v),
{
    let m = magnitude(v);
    let r = (m + 50_000) / 100_000;
    if v < 0 {
        push_char(s, '-');
    }
    push_decimal(s, r / 100);
    push_char(s, '.');
    push_padded(s, r % 100, 2);
    assert(s@ =~= old(s)@ + coord_text_2(v));
}

impl MCPosition {
    /// Render the position as the line shown in a conversation.
    pub fn display_string(&self) -> (s: String)
        ensures
            s@ == position_text(*self),
    {
        let mut s = String::new();
        push_str(&mut s, "\u{1f4cc} ");
        push_coord_2(&mut s, self.latitude_i);
        push_str(&mut s, ", ");
        push_coord_2(&mut s, self.longitude_i);
        s
    }
}

/// The map link (a URL) that shows `position`.
pub fn location_url(position: &MCPosition) -> (s: String)
    ensures
        s@ == location_url_text(*position),
{
    let mut s = String::new();
    push_str(&mut s, "https://maps.google.com/?q=");
    push_coord_7(&mut s, position.latitude_i);
    push_str(&mut s, ",");
    push_coord_7(&mut s, position.longitude_i);
    s
}

/// What the app knows of a node: its number, and the user and position it reported.
#[derive(Debug, Clone, PartialEq)]
pub struct MCNodeInfo {
    pub node_id: NodeId,
    pub user: Option<MCUser>,
    pub position: Option<MCPosition>,
    pub is_ignored: bool,
}

/// The contents of an [MCNodeInfo] as values.
pub struct NodeView {
    pub node_id: NodeId,
    pub user: Option<MCUserView>,
    pub position: Option<MCPosition>,
    pub is_ignored: bool,
}

/// The optional user as a value.
pub open spec fn opt_user_view(u: Option<MCUser>) -> Option<MCUserView> {
    match u {
        Some(u) => Some(u@),
        None => None,
    }
}

impl View for MCNodeInfo {
    type V = NodeView;

    open spec fn view(&self) -> NodeView {
        NodeView {
            node_id: self.node_id,
            user: opt_user_view(self.user),
            position: self.position,
            is_ignored: self.is_ignored,
        }
    }
}

impl Default for MCNodeInfo {
    /// Node zero, with no user or position, not ignored.
    fn default() -> (n: Self)
        ensures
            n@ == (NodeView { node_id: 0, user: None, position: None, is_ignored: false }),
    {
        MCNodeInfo { node_id: 0, user: None, position: None, is_ignored: false }
    }
}

impl Default for MCUser {
    /// A user with every text empty, every number zero and every flag off.
    fn default() -> (u: Self)
        ensures
            u@ == named_user(Seq::empty(), Seq::empty(), Seq::empty(), Seq::empty()),
    {
        MCUser::empty()
    }
}

/// A copy of an optional user.
pub fn clone_opt_user(u: &Option<MCUser>) -> (r: Option<MCUser>)
    ensures
        opt_user_view(r) == opt_user_view(*u),
{
    match u {
        Some(u) => Some(u.clone()),
        None => None,
    }
}

/// A channel of the radio: its index and its name.
#[derive(Debug, Clone, PartialEq)]
pub struct MCChannel {
    pub index: i32,
    pub name: String,
}

/// The name under which a channel with the given settings name is shown: "Default" when the
/// channel has no settings or an empty name.
pub open spec fn channel_shown_name(settings_name: Option<Seq<char>>) -> Seq<char> {
    match settings_name {
        Some(n) => if n.len() == 0 { "Default"@ } else { n },
        None => "Default"@,
    }
}

impl MCChannel {
    /// A channel as a Meshtastic radio reports it: by index and the name in its settings, if it
    /// has settings.
    pub fn from_settings(index: i32, settings_name: Option<String>) -> (c: MCChannel)
        ensures
            c.index == index,
            c.name@ == channel_shown_name(
                match settings_name {
                    Some(n) => Some(n@),
                    None => None,
                },
            ),
    {
        let name = match settings_name {
            Some(n) => if n.as_str().is_empty() {
                String::from_str("Default")
            } else {
                n
            },
            None => String::from_str("Default"),
        };
        MCChannel { index, name }
    }
}

} // verus!
