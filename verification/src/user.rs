//! Server accounts and the builder that creates them.

use vstd::prelude::*;
use vstd::string::StringExecFns;

use crate::numeral::dec_of;
use crate::query::{IntoArg, Query};

verus! {

/// The wire form of a flag argument.
pub open spec fn bool_chars(b: bool) -> Seq<char> {
    if b {
        "true"@
    } else {
        "false"@
    }
}

/// A server account and its permissions.
#[allow(missing_docs)]
#[derive(Debug, Clone)]
pub struct User {
    pub username: String,
    pub email: String,
    /// The bit rate the user's streams are capped at; zero means no cap.
    pub max_bit_rate: u64,
    pub scrobbling_enabled: bool,
    pub ldap_authenticated: bool,
    pub admin_role: bool,
    pub settings_role: bool,
    pub download_role: bool,
    pub upload_role: bool,
    pub playlist_role: bool,
    pub cover_art_role: bool,
    pub comment_role: bool,
    pub podcast_role: bool,
    pub stream_role: bool,
    pub jukebox_role: bool,
    pub share_role: bool,
    pub video_conversion_role: bool,
    /// When the user's avatar last changed, as a timestamp string.
    pub avatar_last_changed: String,
    /// The music folders the user may reach.
    pub folders: Vec<u64>,
}

impl User {
    /// Begins building a new account to push to the server: the given
    /// names, every permission off, no folders, no bit-rate cap.
    pub fn create(username: &str, password: &str, email: &str) -> (r: UserBuilder)
        ensures
            r.username@ == username@,
            r.password@ == password@,
            r.email@ == email@,
            !r.ldap_authenticated,
            !r.admin_role,
            !r.settings_role,
            !r.stream_role,
            !r.jukebox_role,
            !r.download_role,
            !r.upload_role,
            !r.cover_art_role,
            !r.comment_role,
            !r.podcast_role,
            !r.share_role,
            !r.video_conversion_role,
            r.folders@ == Seq::<u64>::empty(),
            r.max_bit_rate == 0,
    {
        UserBuilder::new(username, password, email)
    }

    /// The arguments that push this record's fields to the server.
    #[verifier::rlimit(60)]
    pub fn update_args(&self) -> (q: Query)
        ensures
            q@ =~= seq![
                ("username"@, Some(self.username@)),
                ("email"@, Some(self.email@)),
                ("ldapAuthenticated"@, Some(bool_chars(self.ldap_authenticated))),
                ("adminRole"@, Some(bool_chars(self.admin_role))),
                ("settingsRole"@, Some(bool_chars(self.settings_role))),
                ("streamRole"@, Some(bool_chars(self.stream_role))),
                ("jukeboxRole"@, Some(bool_chars(self.jukebox_role))),
                ("downloadRole"@, Some(bool_chars(self.download_role))),
                ("uploadRole"@, Some(bool_chars(self.upload_role))),
                ("coverArt_role"@, Some(bool_chars(self.cover_art_role))),
                ("commentRole"@, Some(bool_chars(self.comment_role))),
                ("podcastRole"@, Some(bool_chars(self.podcast_role))),
                ("shareRole"@, Some(bool_chars(self.share_role))),
                ("videoConversionRole"@, Some(bool_chars(self.video_conversion_role))),
            ] + Seq::new(
                self.folders@.len(),
                |i: int| ("musicFolderId"@, Some(dec_of(self.folders@[i] as nat))),
            ) + seq![("maxBitRate"@, Some(dec_of(self.max_bit_rate as nat)))],
    {
        let mut q = Query::with("username", self.username.as_str());
        q.arg("email", self.email.as_str());
        q.arg("ldapAuthenticated", self.ldap_authenticated);
        q.arg("adminRole", self.admin_role);
        q.arg("settingsRole", self.settings_role);
        q.arg("streamRole", self.stream_role);
        q.arg("jukeboxRole", self.jukebox_role);
        q.arg("downloadRole", self.download_role);
        q.arg("uploadRole", self.upload_role);
        q.arg("coverArt_role", self.cover_art_role);
        q.arg("commentRole", self.comment_role);
        q.arg("podcastRole", self.podcast_role);
        q.arg("shareRole", self.share_role);
        q.arg("videoConversionRole", self.video_conversion_role);
        q.arg_list("musicFolderId", self.folders.as_slice());
        q.arg("maxBitRate", self.max_bit_rate);
        q.build()
    }

    /// The arguments that change this account's password.
    pub fn change_password_args(&self, password: &str) -> (q: Query)
        ensures
            q@ =~= seq![("username"@, Some(self.username@)), ("password"@, Some(password@))],
    {
        let mut q = Query::with("username", self.username.as_str());
        q.arg("password", password);
        q.build()
    }
}

/// A new account being assembled before it is pushed to the server.
#[allow(missing_docs)]
#[derive(Debug, Clone)]
pub struct UserBuilder {
    pub username: String,
    pub password: String,
    pub email: String,
    pub ldap_authenticated: bool,
    pub admin_role: bool,
    pub settings_role: bool,
    pub stream_role: bool,
    pub jukebox_role: bool,
    pub download_role: bool,
    pub upload_role: bool,
    pub cover_art_role: bool,
    pub comment_role: bool,
    pub podcast_role: bool,
    pub share_role: bool,
    pub video_conversion_role: bool,
    pub folders: Vec<u64>,
    pub max_bit_rate: u64,
}

impl UserBuilder {
    fn new(username: &str, password: &str, email: &str) -> (r: UserBuilder)
        ensures
            r.username@ == username@,
            r.password@ == password@,
            r.email@ == email@,
            !r.ldap_authenticated,
            !r.admin_role,
            !r.settings_role,
            !r.stream_role,
            !r.jukebox_role,
            !r.download_role,
            !r.upload_role,
            !r.cover_art_role,
            !r.comment_role,
            !r.podcast_role,
            !r.share_role,
            !r.video_conversion_role,
            r.folders@ == Seq::<u64>::empty(),
            r.max_bit_rate == 0,
    {
        UserBuilder {
            username: username.to_owned(),
            password: password.to_owned(),
            email: email.to_owned(),
            ldap_authenticated: false,
            admin_role: false,
            settings_role: false,
            stream_role: false,
            jukebox_role: false,
            download_role: false,
            upload_role: false,
            cover_art_role: false,
            comment_role: false,
            podcast_role: false,
            share_role: false,
            video_conversion_role: false,
            folders: Vec::new(),
            max_bit_rate: 0,
        }
    }

    /// Sets the account's `username` field.
    pub fn username(&mut self, username: &str) -> (r: &mut UserBuilder)
        ensures
            (*r).username@ == username@,
            *r == (UserBuilder { username: (*r).username, ..*old(self) }),
            *final(self) == *final(r),
    {
        self.username = username.to_owned();
        self
    }

    /// Sets the account's `password` field.
    pub fn password(&mut self, password: &str) -> (r: &mut UserBuilder)
        ensures
            (*r).password@ == password@,
            *r == (UserBuilder { password: (*r).password, ..*old(self) }),
            *final(self) == *final(r),
    {
        self.password = password.to_owned();
        self
    }

    /// Sets the account's `email` field.
    pub fn email(&mut self, email: &str) -> (r: &mut UserBuilder)
        ensures
            (*r).email@ == email@,
            *r == (UserBuilder { email: (*r).email, ..*old(self) }),
            *final(self) == *final(r),
    {
        self.email = email.to_owned();
        self
    }

    /// Sets the account's `ldap_authenticated` flag.
    pub fn ldap_authenticated(&mut self, ldap_authenticated: bool) -> (r: &mut UserBuilder)
        ensures
            *r == (UserBuilder { ldap_authenticated, ..*old(self) }),
            *final(self) == *final(r),
    {
        self.ldap_authenticated = ldap_authenticated;
        self
    }

    /// Sets the account's `admin_role` flag.
    pub fn admin_role(&mut self, admin_role: bool) -> (r: &mut UserBuilder)
        ensures
            *r == (UserBuilder { admin_role, ..*old(self) }),
            *final(self) == *final(r),
    {
        self.admin_role = admin_role;
        self
    }

    /// Sets the account's `settings_role` flag.
    pub fn settings_role(&mut self, settings_role: bool) -> (r: &mut UserBuilder)
        ensures
            *r == (UserBuilder { settings_role, ..*old(self) }),
            *final(self) == *final(r),
    {
        self.settings_role = settings_role;
        self
    }

    /// Sets the account's `stream_role` flag.
    pub fn stream_role(&mut self, stream_role: bool) -> (r: &mut UserBuilder)
        ensures
            *r == (UserBuilder { stream_role, ..*old(self) }),
            *final(self) == *final(r),
    {
        self.stream_role = stream_role;
        self
    }

    /// Sets the account's `jukebox_role` flag.
    pub fn jukebox_role(&mut self, jukebox_role: bool) -> (r: &mut UserBuilder)
        ensures
            *r == (UserBuilder { jukebox_role, ..*old(self) }),
            *final(self) == *final(r),
    {
        self.jukebox_role = jukebox_role;
        self
    }

    /// Sets the account's `download_role` flag.
    pub fn download_role(&mut self, download_role: bool) -> (r: &mut UserBuilder)
        ensures
            *r == (UserBuilder { download_role, ..*old(self) }),
            *final(self) == *final(r),
    {
        self.download_role = download_role;
        self
    }

    /// Sets the account's `upload_role` flag.
    pub fn upload_role(&mut self, upload_role: bool) -> (r: &mut UserBuilder)
        ensures
            *r == (UserBuilder { upload_role, ..*old(self) }),
            *final(self) == *final(r),
    {
        self.upload_role = upload_role;
        self
    }

    /// Sets the account's `cover_art_role` flag.
    pub fn cover_art_role(&mut self, cover_art_role: bool) -> (r: &mut UserBuilder)
        ensures
            *r == (UserBuilder { cover_art_role, ..*old(self) }),
            *final(self) == *final(r),
    {
        self.cover_art_role = cover_art_role;
        self
    }

    /// Sets the account's `comment_role` flag.
    pub fn comment_role(&mut self, comment_role: bool) -> (r: &mut UserBuilder)
        ensures
            *r == (UserBuilder { comment_role, ..*old(self) }),
            *final(self) == *final(r),
    {
        self.comment_role = comment_role;
        self
    }

    /// Sets the account's `podcast_role` flag.
    pub fn podcast_role(&mut self, podcast_role: bool) -> (r: &mut UserBuilder)
        ensures
            *r == (UserBuilder { podcast_role, ..*old(self) }),
            *final(self) == *final(r),
    {
        self.podcast_role = podcast_role;
        self
    }

    /// Sets the account's `share_role` flag.
    pub fn share_role(&mut self, share_role: bool) -> (r: &mut UserBuilder)
        ensures
            *r == (UserBuilder { share_role, ..*old(self) }),
            *final(self) == *final(r),
    {
        self.share_role = share_role;
        self
    }

    /// Sets the account's `video_conversion_role` flag.
    pub fn video_conversion_role(&mut self, video_conversion_role: bool) -> (r: &mut UserBuilder)
        ensures
            *r == (UserBuilder { video_conversion_role, ..*old(self) }),
            *final(self) == *final(r),
    {
        self.video_conversion_role = video_conversion_role;
        self
    }

    /// Sets the music folders the account may reach.
    pub fn folders(&mut self, folders: &[u64]) -> (r: &mut UserBuilder)
        ensures
            (*r).folders@ == folders@,
            *r == (UserBuilder { folders: (*r).folders, ..*old(self) }),
            *final(self) == *final(r),
    {
        self.folders = vstd::slice::slice_to_vec(folders);
        self
    }

    /// Sets the bit rate the account's streams are capped at, in Kbps;
    /// zero removes the cap.
    pub fn max_bit_rate(&mut self, max_bit_rate: u64) -> (r: &mut UserBuilder)
        ensures
            *r == (UserBuilder { max_bit_rate, ..*old(self) }),
            *final(self) == *final(r),
    {
        self.max_bit_rate = max_bit_rate;
        self
    }

    /// The arguments that push the assembled account to the server.
    #[verifier::rlimit(60)]
    pub fn create_args(&self) -> (q: Query)
        ensures
            q@ =~= seq![
                ("username"@, Some(self.username@)),
                ("password"@, Some(self.password@)),
                ("email"@, Some(self.email@)),
                ("ldapAuthenticated"@, Some(bool_chars(self.ldap_authenticated))),
                ("adminRole"@, Some(bool_chars(self.admin_role))),
                ("settingsRole"@, Some(bool_chars(self.settings_role))),
                ("streamRole"@, Some(bool_chars(self.stream_role))),
                ("jukeboxRole"@, Some(bool_chars(self.jukebox_role))),
                ("downloadRole"@, Some(bool_chars(self.download_role))),
                ("uploadRole"@, Some(bool_chars(self.upload_role))),
                ("coverArt_role"@, Some(bool_chars(self.cover_art_role))),
                ("commentRole"@, Some(bool_chars(self.comment_role))),
                ("podcastRole"@, Some(bool_chars(self.podcast_role))),
                ("shareRole"@, Some(bool_chars(self.share_role))),
                ("videoConversionRole"@, Some(bool_chars(self.video_conversion_role))),
            ] + Seq::new(
                self.folders@.len(),
                |i: int| ("musicFolderId"@, Some(dec_of(self.folders@[i] as nat))),
            ) + seq![("maxBitRate"@, Some(dec_of(self.max_bit_rate as nat)))],
    {
        let mut q = Query::with("username", self.username.as_str());
        q.arg("password", self.password.as_str());
        q.arg("email", self.email.as_str());
        q.arg("ldapAuthenticated", self.ldap_authenticated);
        q.arg("adminRole", self.admin_role);
        q.arg("settingsRole", self.settings_role);
        q.arg("streamRole", self.stream_role);
        q.arg("jukeboxRole", self.jukebox_role);
        q.arg("downloadRole", self.download_role);
        q.arg("uploadRole", self.upload_role);
        q.arg("coverArt_role", self.cover_art_role);
        q.arg("commentRole", self.comment_role);
        q.arg("podcastRole", self.podcast_role);
        q.arg("shareRole", self.share_role);
        q.arg("videoConversionRole", self.video_conversion_role);
        q.arg_list("musicFolderId", self.folders.as_slice());
        q.arg("maxBitRate", self.max_bit_rate);
        q.build()
    }
}

} // verus!
