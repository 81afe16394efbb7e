use vstd::prelude::*;
use vstd::string::*;

verus! {

/// The mathematical value of a `Memorial`: each field as a plain value.
pub struct MemorialV {
    pub id: Option<u64>,
    pub name: Seq<char>,
    pub birth_date: Option<Seq<char>>,
    pub birth_location: Option<Seq<char>>,
    pub death_date: Option<Seq<char>>,
    pub death_location: Option<Seq<char>>,
    pub burial_location: Option<Seq<char>>,
    pub plot_details: Option<Seq<char>>,
}

/// The stored text fields of one row of the store, without the id that
/// keys it.
pub struct RowV {
    pub name: Seq<char>,
    pub birth_date: Option<Seq<char>>,
    pub birth_location: Option<Seq<char>>,
    pub death_date: Option<Seq<char>>,
    pub death_location: Option<Seq<char>>,
    pub burial_location: Option<Seq<char>>,
    pub plot_details: Option<Seq<char>>,
}

/// The row that persisting a memorial writes: its text fields.
pub open spec fn row_of(m: MemorialV) -> RowV {
    RowV {
        name: m.name,
        birth_date: m.birth_date,
        birth_location: m.birth_location,
        death_date: m.death_date,
        death_location: m.death_location,
        burial_location: m.burial_location,
        plot_details: m.plot_details,
    }
}

/// The memorial that a lookup under `id` rebuilds from a stored row.
pub open spec fn record_of_row(id: u64, r: RowV) -> MemorialV {
    MemorialV {
        id: Some(id),
        name: r.name,
        birth_date: r.birth_date,
        birth_location: r.birth_location,
        death_date: r.death_date,
        death_location: r.death_location,
        burial_location: r.burial_location,
        plot_details: r.plot_details,
    }
}

/// A memorial extracted from a page: the only mandatory field is `name`.
#[derive(Debug, Clone)]
pub struct Memorial {
    /// Numeric memorial identifier, when it could be resolved.
    pub id: Option<u64>,
    /// Full name of the person; extraction fails without one.
    pub name: String,
    /// Birth date, when a rule matched.
    pub birth_date: Option<String>,
    /// Birth location, when a rule matched.
    pub birth_location: Option<String>,
    /// Death date, when a rule matched.
    pub death_date: Option<String>,
    /// Death location, when a rule matched.
    pub death_location: Option<String>,
    /// Burial location, when a rule matched.
    pub burial_location: Option<String>,
    /// Plot details, when a rule matched.
    pub plot_details: Option<String>,
}

impl View for Memorial {
    type V = MemorialV;

    open spec fn view(&self) -> MemorialV {
        MemorialV {
            id: self.id,
            name: self.name@,
            birth_date: self.birth_date.deep_view(),
            birth_location: self.birth_location.deep_view(),
            death_date: self.death_date.deep_view(),
            death_location: self.death_location.deep_view(),
            burial_location: self.burial_location.deep_view(),
            plot_details: self.plot_details.deep_view(),
        }
    }
}

impl DeepView for Memorial {
    type V = MemorialV;

    open spec fn deep_view(&self) -> MemorialV {
        self.view()
    }
}

/// Content completeness: a name is present together with at least one of
/// birth date, death date or burial location.  Distinct from extraction
/// success, which needs the name alone.
pub open spec fn spec_is_valid(m: MemorialV) -> bool {
    m.name.len() > 0 && (m.birth_date is Some || m.death_date is Some || m.burial_location is Some)
}

/// Well-formedness of an extracted memorial: the name is non-empty, and
/// every optional field that is present is non-empty.
pub open spec fn spec_wf(m: MemorialV) -> bool {
    &&& m.name.len() > 0
    &&& opt_present_nonempty(m.birth_date)
    &&& opt_present_nonempty(m.birth_location)
    &&& opt_present_nonempty(m.death_date)
    &&& opt_present_nonempty(m.death_location)
    &&& opt_present_nonempty(m.burial_location)
    &&& opt_present_nonempty(m.plot_details)
}

pub open spec fn opt_present_nonempty(o: Option<Seq<char>>) -> bool {
    match o {
        Some(s) => s.len() > 0,
        None => true,
    }
}

/// The birth line of a citation, empty when no birth date is set.
pub open spec fn birth_part(m: MemorialV) -> Seq<char> {
    match m.birth_date {
        Some(d) => "\nBirth: "@ + d + location_part(m.birth_location),
        None => Seq::empty(),
    }
}

/// The death line of a citation, empty when no death date is set.
pub open spec fn death_part(m: MemorialV) -> Seq<char> {
    match m.death_date {
        Some(d) => "\nDeath: "@ + d + location_part(m.death_location),
        None => Seq::empty(),
    }
}

/// The location appended to a birth or death line, with a comma, when set.
pub open spec fn location_part(o: Option<Seq<char>>) -> Seq<char> {
    match o {
        Some(l) => ", "@ + l,
        None => Seq::empty(),
    }
}

/// The burial line of a citation, empty when no burial location is set.
pub open spec fn burial_part(m: MemorialV) -> Seq<char> {
    match m.burial_location {
        Some(b) => "\nBurial: "@ + b,
        None => Seq::empty(),
    }
}

/// The plot line of a citation, empty when no plot details are set.
pub open spec fn plot_part(m: MemorialV) -> Seq<char> {
    match m.plot_details {
        Some(p) => "\nPlot: "@ + p,
        None => Seq::empty(),
    }
}

/// The citation rendering of a memorial: a Name line first, then Birth,
/// Death, Burial and Plot lines, each present exactly when its field is.
pub open spec fn citation_of(m: MemorialV) -> Seq<char> {
    "Name: "@ + m.name + birth_part(m) + death_part(m) + burial_part(m) + plot_part(m)
}

impl Memorial {
    /// Create a new empty memorial: no id, empty name, no optional fields.
    pub fn new() -> (m: Memorial)
        ensures
            m@.id is None,
            m@.name.len() == 0,
            m@.birth_date is None,
            m@.birth_location is None,
            m@.death_date is None,
            m@.death_location is None,
            m@.burial_location is None,
            m@.plot_details is None,
    {
        Memorial {
            id: None,
            name: String::new(),
            birth_date: None,
            birth_location: None,
            death_date: None,
            death_location: None,
            burial_location: None,
            plot_details: None,
        }
    }

    /// Whether the memorial carries at least basic information.
    pub fn is_valid(&self) -> (r: bool)
        ensures
            r == spec_is_valid(self@),
    {
        !self.name.as_str().is_empty()
            && (self.birth_date.is_some() || self.death_date.is_some()
                || self.burial_location.is_some())
    }

    /// Render the citation: the Name line always first, then one line per
    /// optional field that is set, in fixed order.
    pub fn to_citation(&self) -> (r: String)
        ensures
            r@ == citation_of(self@),
    {
        let mut citation = String::from_str("Name: ");
        citation.append(self.name.as_str());
        let ghost head = "Name: "@ + self@.name;
        proof {
            assert(citation@ =~= head);
        }

        if let Some(birth) = &self.birth_date {
            citation.append("\nBirth: ");
            citation.append(birth.as_str());
            if let Some(loc) = &self.birth_location {
                citation.append(", ");
                citation.append(loc.as_str());
            }
        }
        let ghost with_birth = head + birth_part(self@);
        proof {
            assert(citation@ =~= with_birth);
        }

        if let Some(death) = &self.death_date {
            citation.append("\nDeath: ");
            citation.append(death.as_str());
            if let Some(loc) = &self.death_location {
                citation.append(", ");
                citation.append(loc.as_str());
            }
        }
        let ghost with_death = with_birth + death_part(self@);
        proof {
            assert(citation@ =~= with_death);
        }

        if let Some(burial) = &self.burial_location {
            citation.append("\nBurial: ");
            citation.append(burial.as_str());
        }

        if let Some(plot) = &self.plot_details {
            citation.append("\nPlot: ");
            citation.append(plot.as_str());
        }
        proof {
            assert(citation@ =~= with_death + burial_part(self@) + plot_part(self@));
            assert(citation@ =~= citation_of(self@));
        }
        citation
    }
}

impl Memorial {
    /// Rebuild a memorial from one stored row's columns, in table order;
    /// a negative or absent stored id leaves the id unset.
    pub(crate) fn from_columns(
        columns: (
            Option<i64>,
            String,
            Option<String>,
            Option<String>,
            Option<String>,
            Option<String>,
            Option<String>,
            Option<String>,
        ),
    ) -> (m: Memorial)
        ensures
            m@.id == (match columns.0 {
                Some(v) => if v >= 0 {
                    Some(v as u64)
                } else {
                    None::<u64>
                },
                None => None::<u64>,
            }),
            m@.name == columns.1@,
            m@.birth_date == columns.2.deep_view(),
            m@.birth_location == columns.3.deep_view(),
            m@.death_date == columns.4.deep_view(),
            m@.death_location == columns.5.deep_view(),
            m@.burial_location == columns.6.deep_view(),
            m@.plot_details == columns.7.deep_view(),
    {
        let (id, name, birth_date, birth_location, death_date, death_location, burial_location,
            plot_details) = columns;
        let converted: Option<u64> = match id {
            Some(v) => if v >= 0 {
                Some(v as u64)
            } else {
                None
            },
            None => None,
        };
        Memorial {
            id: converted,
            name,
            birth_date,
            birth_location,
            death_date,
            death_location,
            burial_location,
            plot_details,
        }
    }
}

impl Default for Memorial {
    /// The default memorial is the empty one.
    fn default() -> (m: Self)
        ensures
            m@.id is None,
            m@.name.len() == 0,
            m@.birth_date is None,
            m@.birth_location is None,
            m@.death_date is None,
            m@.death_location is None,
            m@.burial_location is None,
            m@.plot_details is None,
    {
        Self::new()
    }
}

/// Law: a citation always starts with the Name line, and each later line
/// appears exactly when its field is set, in the fixed order Name, Birth,
/// Death, Burial, Plot, with a location joined by a comma to its date line.
pub proof fn lemma_citation_shape(m: MemorialV)
    ensures
        citation_of(m).take("Name: "@.len() + m.name.len() as int) == "Name: "@ + m.name,
        citation_of(m) == "Name: "@ + m.name + birth_part(m) + death_part(m) + burial_part(m)
            + plot_part(m),
        m.birth_date is None ==> birth_part(m) == Seq::<char>::empty(),
        m.birth_date is Some && m.birth_location is None ==> birth_part(m) == "\nBirth: "@
            + m.birth_date.unwrap(),
        m.birth_date is Some && m.birth_location is Some ==> birth_part(m) == "\nBirth: "@
            + m.birth_date.unwrap() + ", "@ + m.birth_location.unwrap(),
        m.death_date is None ==> death_part(m) == Seq::<char>::empty(),
        m.death_date is Some && m.death_location is None ==> death_part(m) == "\nDeath: "@
            + m.death_date.unwrap(),
        m.death_date is Some && m.death_location is Some ==> death_part(m) == "\nDeath: "@
            + m.death_date.unwrap() + ", "@ + m.death_location.unwrap(),
        m.burial_location is None ==> burial_part(m) == Seq::<char>::empty(),
        m.burial_location is Some ==> burial_part(m) == "\nBurial: "@ + m.burial_location.unwrap(),
        m.plot_details is None ==> plot_part(m) == Seq::<char>::empty(),
        m.plot_details is Some ==> plot_part(m) == "\nPlot: "@ + m.plot_details.unwrap(),
{
    assert(citation_of(m).take("Name: "@.len() + m.name.len() as int) =~= "Name: "@ + m.name);
    if m.birth_date is Some && m.birth_location is Some {
        assert(birth_part(m) =~= "\nBirth: "@ + m.birth_date.unwrap() + ", "@
            + m.birth_location.unwrap());
    }
    if m.death_date is Some && m.death_location is Some {
        assert(death_part(m) =~= "\nDeath: "@ + m.death_date.unwrap() + ", "@
            + m.death_location.unwrap());
    }
}

} // verus!
