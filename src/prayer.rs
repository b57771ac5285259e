use vstd::prelude::*;
use vstd::string::*;

verus! {

/// The five daily prayers, in canonical order.
#[derive(Debug, Clone, Copy, PartialEq, Eq, Structural)]
pub enum PrayerKind {
    Fajr,
    Dhuhr,
    Asr,
    Maghrib,
    Isha,
}

/// Position of a prayer in canonical order.
pub open spec fn kind_index(k: PrayerKind) -> int {
    match k {
        PrayerKind::Fajr => 0,
        PrayerKind::Dhuhr => 1,
        PrayerKind::Asr => 2,
        PrayerKind::Maghrib => 3,
        PrayerKind::Isha => 4,
    }
}

/// The prayer at position `i` of canonical order.
pub open spec fn kind_at(i: int) -> PrayerKind {
    if i <= 0 {
        PrayerKind::Fajr
    } else if i == 1 {
        PrayerKind::Dhuhr
    } else if i == 2 {
        PrayerKind::Asr
    } else if i == 3 {
        PrayerKind::Maghrib
    } else {
        PrayerKind::Isha
    }
}

/// The symbolic name of a prayer.
pub open spec fn kind_name(k: PrayerKind) -> Seq<char> {
    match k {
        PrayerKind::Fajr => "Fajr"@,
        PrayerKind::Dhuhr => "Dhuhr"@,
        PrayerKind::Asr => "Asr"@,
        PrayerKind::Maghrib => "Maghrib"@,
        PrayerKind::Isha => "Isha"@,
    }
}

/// Summary line of the alert for a prayer.
pub open spec fn summary_text(k: PrayerKind) -> Seq<char> {
    "Waktu Sholat "@ + kind_name(k)
}

/// Body of the alert for a prayer.
pub open spec fn body_text(k: PrayerKind) -> Seq<char> {
    "Saatnya menunaikan sholat "@ + kind_name(k)
}

impl PrayerKind {
    /// The prayer at position `i` of canonical order.
    pub fn at(i: usize) -> (r: PrayerKind)
        requires
            i < 5,
        ensures
            r == kind_at(i as int),
            kind_index(r) == i,
    {
        if i == 0 {
            PrayerKind::Fajr
        } else if i == 1 {
            PrayerKind::Dhuhr
        } else if i == 2 {
            PrayerKind::Asr
        } else if i == 3 {
            PrayerKind::Maghrib
        } else {
            PrayerKind::Isha
        }
    }

    /// Position of this prayer in canonical order.
    pub fn index(&self) -> (r: usize)
        ensures
            r == kind_index(*self),
            r < 5,
    {
        match self {
            PrayerKind::Fajr => 0,
            PrayerKind::Dhuhr => 1,
            PrayerKind::Asr => 2,
            PrayerKind::Maghrib => 3,
            PrayerKind::Isha => 4,
        }
    }

    /// The symbolic name, such as "Maghrib".
    pub fn name(&self) -> (r: String)
        ensures
            r@ == kind_name(*self),
    {
        match self {
            PrayerKind::Fajr => String::from_str("Fajr"),
            PrayerKind::Dhuhr => String::from_str("Dhuhr"),
            PrayerKind::Asr => String::from_str("Asr"),
            PrayerKind::Maghrib => String::from_str("Maghrib"),
            PrayerKind::Isha => String::from_str("Isha"),
        }
    }

    /// Summary line of the desktop alert: "Waktu Sholat <name>".
    pub fn notification_summary(&self) -> (r: String)
        ensures
            r@ == summary_text(*self),
    {
        let mut s = String::from_str("Waktu Sholat ");
        let n = self.name();
        s.append(n.as_str());
        s
    }

    /// Body of the desktop alert: "Saatnya menunaikan sholat <name>".
    pub fn notification_body(&self) -> (r: String)
        ensures
            r@ == body_text(*self),
    {
        let mut s = String::from_str("Saatnya menunaikan sholat ");
        let n = self.name();
        s.append(n.as_str());
        s
    }
}

} // verus!
