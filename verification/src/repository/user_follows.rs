//! The follow edge table walked from either end, and the counters behind a
//! profile page.

use vstd::prelude::*;

verus! {

/// Counts and viewer-relative flags behind a profile page.
#[derive(Debug, Clone)]
pub struct FollowProfileStats {
    pub signature: String,
    /// Stored file behind the page header, or `None` for the default backdrop.
    pub background_file_reference_id: Option<i64>,
    pub following_count: i64,
    pub follower_count: i64,
    pub viewer_following: bool,
    pub following_viewer: bool,
    /// Whether anyone but the owner may open the two lists. The counts are
    /// reported either way: hiding the number too would make a private
    /// account look like an empty one.
    pub show_following: bool,
    pub show_followers: bool,
}

/// Which direction of the edge a listing walks.
#[derive(Debug, Clone, Copy, PartialEq, Eq, Structural)]
pub enum FollowDirection {
    /// Accounts the subject follows.
    Following,
    /// Accounts that follow the subject.
    Followers,
}

impl FollowDirection {
    /// The column holding the subject of the listing.
    pub open spec fn subject_column_spec(self) -> Seq<char> {
        match self {
            FollowDirection::Following => "follower_user_id"@,
            FollowDirection::Followers => "followee_user_id"@,
        }
    }

    /// The column holding the account being listed.
    pub open spec fn listed_column_spec(self) -> Seq<char> {
        match self {
            FollowDirection::Following => "followee_user_id"@,
            FollowDirection::Followers => "follower_user_id"@,
        }
    }

    /// The other way along the edge.
    pub open spec fn reversed(self) -> FollowDirection {
        match self {
            FollowDirection::Following => FollowDirection::Followers,
            FollowDirection::Followers => FollowDirection::Following,
        }
    }

    pub fn subject_column(self) -> (r: &'static str)
        ensures
            r@ == self.subject_column_spec(),
    {
        match self {
            FollowDirection::Following => "follower_user_id",
            FollowDirection::Followers => "followee_user_id",
        }
    }

    pub fn listed_column(self) -> (r: &'static str)
        ensures
            r@ == self.listed_column_spec(),
    {
        match self {
            FollowDirection::Following => "followee_user_id",
            FollowDirection::Followers => "follower_user_id",
        }
    }
}

/// The two listings walk opposite ends of the same edge: what one filters on
/// the other lists, and no listing filters and lists the same column.
pub proof fn listings_walk_opposite_ends(direction: FollowDirection)
    ensures
        direction.subject_column_spec() == direction.reversed().listed_column_spec(),
        direction.listed_column_spec() == direction.reversed().subject_column_spec(),
        direction.subject_column_spec() != direction.listed_column_spec(),
{
    reveal_strlit("follower_user_id");
    reveal_strlit("followee_user_id");
    assert("follower_user_id"@[7] != "followee_user_id"@[7]);
}

} // verus!
