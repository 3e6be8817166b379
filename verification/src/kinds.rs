//! The closed vocabularies of a search request: what to search for and how
//! to order what was found.

use crate::text::same_text;
use vstd::prelude::*;

verus! {

/// The entity kinds that can be searched and resolved.
#[derive(Clone, Copy, Debug, PartialEq, Eq, Structural)]
pub enum EntityKind {
    Post,
    Comment,
    Community,
    User,
}

/// What a search request asks for.
#[derive(Clone, Copy, Debug, PartialEq, Eq, Structural)]
pub enum SearchType {
    All,
    Comments,
    Posts,
    Communities,
    Users,
    Url,
}

/// How results are ordered.
#[derive(Clone, Copy, Debug, PartialEq, Eq, Structural)]
pub enum SortType {
    Active,
    Hot,
    New,
    TopDay,
    TopWeek,
    TopMonth,
    TopYear,
    TopAll,
}

/// Why a request was turned down before any work was done for it.
#[derive(Clone, Copy, Debug, PartialEq, Eq, Structural)]
pub enum ValidationError {
    /// The requested type is not the name of a `SearchType`.
    UnknownSearchType,
    /// The requested sort is not the name of a `SortType`.
    UnknownSortType,
    /// The requested page is less than 1.
    PageOutOfRange,
    /// The requested limit is less than 1.
    LimitOutOfRange,
}

/// The search type that `name` spells, if any. Names are matched exactly.
pub open spec fn search_type_named(name: Seq<char>) -> Option<SearchType> {
    if name == "All"@ {
        Some(SearchType::All)
    } else if name == "Comments"@ {
        Some(SearchType::Comments)
    } else if name == "Posts"@ {
        Some(SearchType::Posts)
    } else if name == "Communities"@ {
        Some(SearchType::Communities)
    } else if name == "Users"@ {
        Some(SearchType::Users)
    } else if name == "Url"@ {
        Some(SearchType::Url)
    } else {
        None
    }
}

/// The sort order that `name` spells, if any. Names are matched exactly.
pub open spec fn sort_type_named(name: Seq<char>) -> Option<SortType> {
    if name == "Active"@ {
        Some(SortType::Active)
    } else if name == "Hot"@ {
        Some(SortType::Hot)
    } else if name == "New"@ {
        Some(SortType::New)
    } else if name == "TopDay"@ {
        Some(SortType::TopDay)
    } else if name == "TopWeek"@ {
        Some(SortType::TopWeek)
    } else if name == "TopMonth"@ {
        Some(SortType::TopMonth)
    } else if name == "TopYear"@ {
        Some(SortType::TopYear)
    } else if name == "TopAll"@ {
        Some(SortType::TopAll)
    } else {
        None
    }
}

impl SearchType {
    /// The name under which this type is requested.
    pub open spec fn name(self) -> Seq<char> {
        match self {
            SearchType::All => "All"@,
            SearchType::Comments => "Comments"@,
            SearchType::Posts => "Posts"@,
            SearchType::Communities => "Communities"@,
            SearchType::Users => "Users"@,
            SearchType::Url => "Url"@,
        }
    }

    /// Reads a search type from its name.
    pub fn from_str(name: &str) -> (parsed: Result<SearchType, ValidationError>)
        ensures
            parsed == match search_type_named(name@) {
                Some(t) => Ok::<SearchType, ValidationError>(t),
                None => Err(ValidationError::UnknownSearchType),
            },
    {
        if same_text(name, "All") {
            Ok(SearchType::All)
        } else if same_text(name, "Comments") {
            Ok(SearchType::Comments)
        } else if same_text(name, "Posts") {
            Ok(SearchType::Posts)
        } else if same_text(name, "Communities") {
            Ok(SearchType::Communities)
        } else if same_text(name, "Users") {
            Ok(SearchType::Users)
        } else if same_text(name, "Url") {
            Ok(SearchType::Url)
        } else {
            Err(ValidationError::UnknownSearchType)
        }
    }

    /// The name of this search type.
    pub fn as_str(&self) -> (name: &'static str)
        ensures
            name@ == self.name(),
    {
        match self {
            SearchType::All => "All",
            SearchType::Comments => "Comments",
            SearchType::Posts => "Posts",
            SearchType::Communities => "Communities",
            SearchType::Users => "Users",
            SearchType::Url => "Url",
        }
    }
}

impl SortType {
    /// The name under which this order is requested.
    pub open spec fn name(self) -> Seq<char> {
        match self {
            SortType::Active => "Active"@,
            SortType::Hot => "Hot"@,
            SortType::New => "New"@,
            SortType::TopDay => "TopDay"@,
            SortType::TopWeek => "TopWeek"@,
            SortType::TopMonth => "TopMonth"@,
            SortType::TopYear => "TopYear"@,
            SortType::TopAll => "TopAll"@,
        }
    }

    /// Reads a sort order from its name.
    pub fn from_str(name: &str) -> (parsed: Result<SortType, ValidationError>)
        ensures
            parsed == match sort_type_named(name@) {
                Some(s) => Ok::<SortType, ValidationError>(s),
                None => Err(ValidationError::UnknownSortType),
            },
    {
        if same_text(name, "Active") {
            Ok(SortType::Active)
        } else if same_text(name, "Hot") {
            Ok(SortType::Hot)
        } else if same_text(name, "New") {
            Ok(SortType::New)
        } else if same_text(name, "TopDay") {
            Ok(SortType::TopDay)
        } else if same_text(name, "TopWeek") {
            Ok(SortType::TopWeek)
        } else if same_text(name, "TopMonth") {
            Ok(SortType::TopMonth)
        } else if same_text(name, "TopYear") {
            Ok(SortType::TopYear)
        } else if same_text(name, "TopAll") {
            Ok(SortType::TopAll)
        } else {
            Err(ValidationError::UnknownSortType)
        }
    }

    /// The name of this sort order.
    pub fn as_str(&self) -> (name: &'static str)
        ensures
            name@ == self.name(),
    {
        match self {
            SortType::Active => "Active",
            SortType::Hot => "Hot",
            SortType::New => "New",
            SortType::TopDay => "TopDay",
            SortType::TopWeek => "TopWeek",
            SortType::TopMonth => "TopMonth",
            SortType::TopYear => "TopYear",
            SortType::TopAll => "TopAll",
        }
    }
}

/// Every search type is read back from its own name.
pub proof fn search_type_name_round_trip(t: SearchType)
    ensures
        search_type_named(t.name()) == Some(t),
{
    reveal_strlit("All");
    reveal_strlit("Comments");
    reveal_strlit("Posts");
    reveal_strlit("Communities");
    reveal_strlit("Users");
    reveal_strlit("Url");
    assert("All"@.len() == 3 && "All"@[0] == 'A');
    assert("Url"@.len() == 3 && "Url"@[0] == 'U');
    assert("Posts"@.len() == 5 && "Posts"@[0] == 'P');
    assert("Users"@.len() == 5 && "Users"@[0] == 'U');
    assert("Comments"@.len() == 8);
    assert("Communities"@.len() == 11);
}

/// Every sort order is read back from its own name.
pub proof fn sort_type_name_round_trip(s: SortType)
    ensures
        sort_type_named(s.name()) == Some(s),
{
    reveal_strlit("Active");
    reveal_strlit("Hot");
    reveal_strlit("New");
    reveal_strlit("TopDay");
    reveal_strlit("TopWeek");
    reveal_strlit("TopMonth");
    reveal_strlit("TopYear");
    reveal_strlit("TopAll");
    assert("Hot"@.len() == 3 && "Hot"@[0] == 'H');
    assert("New"@.len() == 3 && "New"@[0] == 'N');
    assert("Active"@.len() == 6 && "Active"@[3] == 'i');
    assert("TopDay"@.len() == 6 && "TopDay"@[3] == 'D');
    assert("TopAll"@.len() == 6 && "TopAll"@[3] == 'A');
    assert("TopWeek"@.len() == 7 && "TopWeek"@[3] == 'W');
    assert("TopYear"@.len() == 7 && "TopYear"@[3] == 'Y');
    assert("TopMonth"@.len() == 8);
}

} // verus!
