//! The records that the service exchanges with its data layer and its clients.

use vstd::prelude::*;
use vstd::string::StringExecFns;

verus! {

/// The identifier of a record: the table that holds it and its key there.
#[derive(Clone, Debug, PartialEq)]
pub struct Thing {
    pub tb: String,
    pub id: String,
}

impl Thing {
    /// The identifier as text: the table, a colon, the key.
    pub open spec fn raw(self) -> Seq<char> {
        self.tb@ + ":"@ + self.id@
    }

    /// The identifier as text: the table, a colon, the key.
    pub fn to_raw(&self) -> (text: String)
        ensures
            text@ == self.raw(),
    {
        self.tb.clone().concat(":").concat(self.id.as_str())
    }

    /// A copy of the identifier.
    pub fn duplicate(&self) -> (copy: Thing)
        ensures
            copy == *self,
    {
        Thing { tb: self.tb.clone(), id: self.id.clone() }
    }
}

/// A point in time, in seconds since the Unix epoch.
#[derive(Clone, Copy, Debug, PartialEq)]
pub struct Datetime {
    pub seconds: i64,
}

/// An account as the data layer keeps it.
#[derive(Clone, Debug, PartialEq)]
pub struct User {
    pub id: Option<Thing>,
    pub username: String,
    pub user_type: String,
    pub email: String,
    pub created_at: Option<Datetime>,
    pub updated_at: Option<Datetime>,
    pub password: String,
    pub verified: bool,
    pub verified_token: Option<String>,
}

/// A gym profile as the data layer keeps it.
#[derive(Clone, Debug, PartialEq)]
pub struct Gym {
    pub id: Option<Thing>,
    pub name: String,
    pub description: String,
    pub location_id: Option<Thing>,
    pub owner_id: Thing,
    pub profile_picture: String,
    pub created_at: Option<Datetime>,
    pub updated_at: Option<Datetime>,
}

/// The identifier of a record that was just written.
#[derive(Clone, Debug, PartialEq)]
pub struct Id {
    pub id: Thing,
}

/// What a new account is registered with.
#[derive(Clone, Debug, PartialEq)]
pub struct PayloadUser {
    pub username: String,
    pub email: String,
    pub password: String,
}

/// A request to verify the account with this email.
#[derive(Clone, Debug, PartialEq)]
pub struct PayloadUserVerify {
    pub email: String,
}

/// A record of which only the identifier is read.
#[derive(Debug)]
pub struct Record {
    pub id: Thing,
}

/// An identifier handed to a client as text.
#[derive(Clone, Debug, PartialEq)]
pub struct PayloadIdResponses {
    pub id: String,
}

/// A gym profile as it is read back from the data layer.
#[derive(Clone, Debug, PartialEq)]
pub struct PayloadGymResponses {
    pub id: String,
    pub name: String,
    pub description: String,
    pub location_id: Option<Thing>,
    pub profile_picture: String,
    pub owner_id: Option<Thing>,
    pub created_at: Option<Datetime>,
    pub updated_at: Option<Datetime>,
}

/// A gym profile as it is shown to a client.
#[derive(Clone, Debug, PartialEq)]
pub struct PayloadGymProfileResponses {
    pub name: String,
    pub description: String,
    pub profile_picture: String,
    pub created_at: Option<Datetime>,
    pub updated_at: Option<Datetime>,
}

/// The changes asked for on a gym profile; an absent field is left alone.
#[derive(Clone, Debug, PartialEq)]
pub struct PayloadGymRequest {
    pub name: Option<String>,
    pub description: Option<String>,
    pub profile_picture: Option<String>,
    pub owner_id: Option<Thing>,
    pub location_id: Option<Thing>,
    pub created_at: Option<Datetime>,
    pub updated_at: Option<Datetime>,
}

/// An account as it is read back from the data layer.
#[derive(Clone, Debug, PartialEq)]
pub struct PayloadUserResponse {
    pub id: Thing,
    pub username: String,
    pub user_type: String,
    pub email: String,
    pub password: String,
    pub verified: bool,
    pub verified_token: Option<String>,
    pub created_at: Option<Datetime>,
    pub updated_at: Option<Datetime>,
}

/// A gym seeker profile as the data layer keeps it.
#[derive(Clone, Debug, PartialEq)]
pub struct GymSeeker {
    pub id: Option<Thing>,
    pub name: String,
    pub birth_date: Option<Datetime>,
    pub sex: String,
    pub user_id: Option<Thing>,
    pub profile_picture: String,
    pub fitness_goals: String,
    pub preferred_workout_time: String,
    pub gym_preferences: String,
    pub membership_status: String,
    pub bio: String,
    pub created_at: Option<Datetime>,
    pub updated_at: Option<Datetime>,
}

/// The changes asked for on a gym seeker profile; an absent field is left alone.
#[derive(Clone, Debug, PartialEq)]
pub struct PayloadGymSeekerRequest {
    pub name: Option<String>,
    pub birth_date: Option<Datetime>,
    pub sex: Option<String>,
    pub user_id: Option<Thing>,
    pub profile_picture: Option<String>,
    pub fitness_goals: Option<String>,
    pub preferred_workout_time: Option<String>,
    pub gym_preferences: Option<String>,
    pub membership_status: Option<String>,
    pub bio: Option<String>,
    pub created_at: Option<Datetime>,
    pub updated_at: Option<Datetime>,
}

/// A gym seeker profile as it is read back from the data layer.
#[derive(Clone, Debug, PartialEq)]
pub struct PayloadGymSeekerResponse {
    pub id: String,
    pub name: String,
    pub birth_date: Option<Datetime>,
    pub sex: String,
    pub user_id: Option<Thing>,
    pub profile_picture: String,
    pub fitness_goals: String,
    pub preferred_workout_time: String,
    pub gym_preferences: String,
    pub membership_status: String,
    pub bio: String,
    pub created_at: Option<Datetime>,
    pub updated_at: Option<Datetime>,
}

/// A gym seeker profile as it is shown to a client.
#[derive(Debug)]
pub struct PayloadGymSeekerProfileResponse {
    pub name: String,
    pub birth_date: Option<Datetime>,
    pub sex: String,
    pub profile_picture: String,
    pub fitness_goals: String,
    pub preferred_workout_time: String,
    pub gym_preferences: String,
    pub membership_status: String,
    pub bio: String,
    pub created_at: Option<Datetime>,
    pub updated_at: Option<Datetime>,
}

/// The credentials that a login presents.
#[derive(Debug)]
pub struct LoginUserSchema {
    pub email: String,
    pub password: String,
}

/// A location as it is read back from the data layer, its coordinates as text.
#[derive(Clone, Debug, PartialEq)]
pub struct PayloadLocationResponse {
    pub id: Option<Thing>,
    pub address: Option<String>,
    pub latitude: Option<String>,
    pub longitude: Option<String>,
    pub created_at: Option<Datetime>,
    pub updated_at: Option<Datetime>,
}

/// A trainer profile as the data layer keeps it.
#[derive(Debug, Clone)]
pub struct Trainer {
    pub id: Option<Thing>,
    pub name: Option<String>,
    pub sex: Option<String>,
    pub experience: Option<i64>,
    pub expertise: Option<String>,
    pub gym_id: Thing,
    pub user_id: Thing,
    pub created_at: Option<Datetime>,
    pub updated_at: Option<Datetime>,
}

/// The changes asked for on a trainer profile; an absent field is left alone.
#[derive(Clone, Debug, PartialEq)]
pub struct PayloadTrainerRequest {
    pub name: Option<String>,
    pub sex: Option<String>,
    pub experience: Option<i64>,
    pub expertise: Option<String>,
    pub gym_id: Option<Thing>,
    pub user_id: Option<Thing>,
    pub created_at: Option<Datetime>,
    pub updated_at: Option<Datetime>,
}

/// A trainer profile as it is read back from the data layer.
#[derive(Clone, Debug, PartialEq)]
pub struct PayloadTrainerResponse {
    pub id: String,
    pub name: Option<String>,
    pub sex: Option<String>,
    pub experience: Option<i64>,
    pub expertise: Option<String>,
    pub created_at: Option<Datetime>,
    pub updated_at: Option<Datetime>,
}

/// A trainer profile as it is shown to a client.
#[derive(Clone, Debug, PartialEq)]
pub struct PayloadTrainerProfileResponse {
    pub name: Option<String>,
    pub sex: Option<String>,
    pub experience: Option<i64>,
    pub expertise: Option<String>,
    pub created_at: Option<Datetime>,
    pub updated_at: Option<Datetime>,
}

/// A post as the data layer keeps it.
#[derive(Clone, Debug, PartialEq)]
pub struct Post {
    pub id: Option<Thing>,
    pub user_id: Option<Thing>,
    pub gym_id: Option<Thing>,
    pub gym_seeker_id: Option<Thing>,
    pub trainer_id: Option<Thing>,
    pub is_gym: Option<bool>,
    pub is_gym_seeker: Option<bool>,
    pub is_trainer: Option<bool>,
    pub content: Option<String>,
    pub created_at: Option<Datetime>,
    pub updated_at: Option<Datetime>,
}

/// The content of a new post.
#[derive(Clone, Debug, PartialEq)]
pub struct PayloadPostRequest {
    pub content: Option<String>,
}

/// One picture of a post, as the data layer links it.
#[derive(Debug, Clone, PartialEq)]
pub struct PostGalleryForFeed {
    pub id: Option<Thing>,
    pub link: String,
}

/// One picture of a post, as it is shown to a client.
#[derive(Debug, Clone, PartialEq)]
pub struct PostGalleryForFeedDeserialize {
    pub id: String,
    pub link: String,
}

/// A post with its pictures, as it is read back from the data layer.
#[derive(Clone, Debug, PartialEq)]
pub struct PayloadPostResponse {
    pub id: Option<Thing>,
    pub user_id: Option<Thing>,
    pub gym_id: Option<Thing>,
    pub gym_seeker_id: Option<Thing>,
    pub trainer_id: Option<Thing>,
    pub is_gym: Option<bool>,
    pub is_gym_seeker: Option<bool>,
    pub is_trainer: Option<bool>,
    pub content: Option<String>,
    pub created_at: Option<Datetime>,
    pub updated_at: Option<Datetime>,
    pub post_gallery: Option<Vec<PostGalleryForFeed>>,
}

/// A post with its pictures, as it is shown to a client.
#[derive(Clone, Debug, PartialEq)]
pub struct PayloadPostResponseDeserilize {
    pub id: Option<String>,
    pub user_id: Option<String>,
    pub gym_id: Option<String>,
    pub gym_seeker_id: Option<String>,
    pub trainer_id: Option<String>,
    pub is_gym: Option<bool>,
    pub is_gym_seeker: Option<bool>,
    pub is_trainer: Option<bool>,
    pub content: Option<String>,
    pub created_at: Option<Datetime>,
    pub updated_at: Option<Datetime>,
    pub post_gallery: Option<Vec<PostGalleryForFeedDeserialize>>,
}

/// New content for the post with this identifier.
#[derive(Clone, Debug, PartialEq)]
pub struct PayloadPostUpdateRequest {
    pub content: String,
    pub content_id: String,
}

/// The page of a listing that is asked for.
#[derive(Debug)]
pub struct Pagination {
    pub page: Option<i64>,
}

/// The post whose pictures are asked for.
#[derive(Debug)]
pub struct ContentGalery {
    pub content_id: Option<String>,
}

/// One picture of a post as the data layer keeps it.
#[derive(Debug)]
pub struct PostGallery {
    pub id: Option<Thing>,
    pub content_id: Option<Thing>,
    pub media_url: Option<String>,
    pub created_at: Option<Datetime>,
}

} // verus!
