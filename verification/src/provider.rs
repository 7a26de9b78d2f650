//! The `provider` command: linking third-party services, and the table
//! of providers it lists.

use vstd::prelude::*;

use crate::localization::{fill_spec, text_spec, CatalogBundle, LocaleId, LocalizedMessage, PlaceholderError};
use crate::output::args2;
use crate::output::text::{join, join_spec, string_views};
use crate::template::pairs_view;
use crate::text::{chars_eq, chars_of, extend_str, split_str, split_str_spec, string_from_chars};

verus! {

/// The status a provider is listed with until its connection is known.
pub const PROVIDER_STATUS_NOT_CONNECTED: &'static str = "Not Connected";

/// A third-party service that can be linked, as the command line names it.
#[derive(Clone, Debug)]
pub struct ProviderType {
    /// The display name, such as `Linear`.
    pub name: String,
    /// The identifier in URLs and commands, such as `linear`.
    pub slug: String,
    pub allowed_in_personal_context: bool,
    pub allowed_in_team_context: bool,
}

/// A provider as the `list` command shows it.
#[derive(Clone, Debug)]
pub struct ProviderInfo {
    pub name: String,
    pub slug: String,
    /// The contexts the provider may be linked in, such as `personal, team`.
    pub allowed_for: String,
    pub status: String,
}

/// The contexts a provider may be linked in, personal first, joined with
/// `, `.
pub open spec fn allowed_for_spec(p: ProviderType) -> Seq<char> {
    if p.allowed_in_personal_context && p.allowed_in_team_context {
        "personal, team"@
    } else if p.allowed_in_personal_context {
        "personal"@
    } else if p.allowed_in_team_context {
        "team"@
    } else {
        Seq::empty()
    }
}

/// The list entry of a provider: its name and slug, where it may be linked,
/// and the not-connected status.
pub fn provider_info(provider: &ProviderType) -> (info: ProviderInfo)
    ensures
        info.name@ == provider.name@,
        info.slug@ == provider.slug@,
        info.allowed_for@ == allowed_for_spec(*provider),
        info.status@ == PROVIDER_STATUS_NOT_CONNECTED@,
{
    let mut allowed: Vec<String> = Vec::new();
    if provider.allowed_in_personal_context {
        allowed.push("personal".to_owned());
    }
    if provider.allowed_in_team_context {
        allowed.push("team".to_owned());
    }
    let allowed_for = join(&allowed, ", ");
    proof {
        reveal_strlit("personal");
        reveal_strlit("team");
        reveal_strlit(", ");
        reveal_strlit("personal, team");
        let v = string_views(allowed@);
        if provider.allowed_in_personal_context && provider.allowed_in_team_context {
            assert(v =~= seq!["personal"@, "team"@]);
            assert(v.drop_last() =~= seq!["personal"@]);
            assert(join_spec(v.drop_last(), ", "@) == "personal"@);
            assert(join_spec(v, ", "@) == "personal"@ + ", "@ + "team"@);
            assert("personal"@ + ", "@ + "team"@ =~= "personal, team"@);
        } else if provider.allowed_in_personal_context || provider.allowed_in_team_context {
            assert(v.len() == 1);
        } else {
            assert(v.len() == 0);
        }
    }
    ProviderInfo {
        name: provider.name.clone(),
        slug: provider.slug.clone(),
        allowed_for,
        status: PROVIDER_STATUS_NOT_CONNECTED.to_owned(),
    }
}

/// A context name in `locale`: `personal` and `team` through the catalog,
/// anything else as it is.
pub open spec fn localized_scope_piece(b: CatalogBundle, locale: LocaleId, piece: Seq<char>) -> Seq<char> {
    if piece == "personal"@ {
        text_spec(b, locale, "agent_sdk.secret.scope.personal"@)
    } else if piece == "team"@ {
        text_spec(b, locale, "agent_sdk.secret.scope.team"@)
    } else {
        piece
    }
}

/// The contexts of a provider in `locale`: each piece between `, `
/// translated (see [`localized_scope_piece`]), joined again with `, `.
pub open spec fn localized_allowed_for(b: CatalogBundle, locale: LocaleId, allowed_for: Seq<char>) -> Seq<char> {
    join_spec(
        split_str_spec(allowed_for, ", "@).map_values(|p: Seq<char>| localized_scope_piece(b, locale, p)),
        ", "@,
    )
}

/// The status of a provider in `locale`: the not-connected status through
/// the catalog, any other as it is.
pub open spec fn localized_status(b: CatalogBundle, locale: LocaleId, status: Seq<char>) -> Seq<char> {
    if status == PROVIDER_STATUS_NOT_CONNECTED@ {
        text_spec(b, locale, "agent_sdk.provider.status.not_connected"@)
    } else {
        status
    }
}

fn str_eq(a: &str, b: &str) -> (r: bool)
    ensures
        r == (a@ == b@),
{
    let x = chars_of(a);
    let y = chars_of(b);
    chars_eq(x.as_slice(), y.as_slice())
}

impl ProviderInfo {
    /// The table row as stored: name, slug, contexts and status.
    pub fn row(&self) -> (cells: Vec<String>)
        ensures
            string_views(cells@) == seq![self.name@, self.slug@, self.allowed_for@, self.status@],
    {
        let cells = vec![self.name.clone(), self.slug.clone(), self.allowed_for.clone(), self.status.clone()];
        assert(string_views(cells@) =~= seq![self.name@, self.slug@, self.allowed_for@, self.status@]);
        cells
    }

    /// The table row in `locale`: the contexts and the status translated
    /// (see [`localized_allowed_for`] and [`localized_status`]); the name
    /// and slug stay as they are.
    pub fn row_for_locale(&self, catalogs: &CatalogBundle, locale: LocaleId) -> (cells: Vec<String>)
        ensures
            string_views(cells@) == seq![
                self.name@,
                self.slug@,
                localized_allowed_for(*catalogs, locale, self.allowed_for@),
                localized_status(*catalogs, locale, self.status@),
            ],
    {
        proof {
            reveal_strlit(", ");
        }
        let pieces = split_str(self.allowed_for.as_str(), ", ");
        let ghost expected = split_str_spec(self.allowed_for@, ", "@).map_values(
            |p: Seq<char>| localized_scope_piece(*catalogs, locale, p),
        );
        let mut localized: Vec<String> = Vec::new();
        let mut i: usize = 0;
        while i < pieces.len()
            invariant
                i <= pieces@.len(),
                pieces@.map_values(|p: String| p@) == split_str_spec(self.allowed_for@, ", "@),
                expected == split_str_spec(self.allowed_for@, ", "@).map_values(
                    |p: Seq<char>| localized_scope_piece(*catalogs, locale, p),
                ),
                string_views(localized@) == expected.take(i as int),
            decreases pieces@.len() - i,
        {
            let piece = pieces[i].as_str();
            let t = if str_eq(piece, "personal") {
                catalogs.text(locale, "agent_sdk.secret.scope.personal")
            } else if str_eq(piece, "team") {
                catalogs.text(locale, "agent_sdk.secret.scope.team")
            } else {
                piece.to_owned()
            };
            proof {
                assert(pieces@.map_values(|p: String| p@)[i as int] == pieces@[i as int]@);
                assert(t@ == expected[i as int]);
            }
            let ghost before = localized@;
            localized.push(t);
            assert(string_views(localized@) =~= string_views(before).push(t@));
            assert(expected.take(i + 1) =~= expected.take(i as int).push(expected[i as int]));
            i = i + 1;
        }
        assert(expected.take(pieces@.len() as int) =~= expected);
        let allowed_for = join(&localized, ", ");
        let status = if str_eq(self.status.as_str(), PROVIDER_STATUS_NOT_CONNECTED) {
            catalogs.text(locale, "agent_sdk.provider.status.not_connected")
        } else {
            self.status.clone()
        };
        let cells = vec![self.name.clone(), self.slug.clone(), allowed_for, status];
        assert(string_views(cells@) =~= seq![
            self.name@,
            self.slug@,
            localized_allowed_for(*catalogs, locale, self.allowed_for@),
            localized_status(*catalogs, locale, self.status@),
        ]);
        cells
    }
}

/// The table header in `locale`: name, slug, contexts and status.
pub fn provider_info_header_for_locale(catalogs: &CatalogBundle, locale: LocaleId) -> (cells: Vec<String>)
    ensures
        string_views(cells@) == seq![
            text_spec(*catalogs, locale, "agent_sdk.provider.table.name"@),
            text_spec(*catalogs, locale, "agent_sdk.provider.table.slug"@),
            text_spec(*catalogs, locale, "agent_sdk.provider.table.allowed_for"@),
            text_spec(*catalogs, locale, "agent_sdk.provider.table.status"@),
        ],
{
    let cells = vec![
        catalogs.text(locale, "agent_sdk.provider.table.name"),
        catalogs.text(locale, "agent_sdk.provider.table.slug"),
        catalogs.text(locale, "agent_sdk.provider.table.allowed_for"),
        catalogs.text(locale, "agent_sdk.provider.table.status"),
    ];
    assert(string_views(cells@) =~= seq![
        text_spec(*catalogs, locale, "agent_sdk.provider.table.name"@),
        text_spec(*catalogs, locale, "agent_sdk.provider.table.slug"@),
        text_spec(*catalogs, locale, "agent_sdk.provider.table.allowed_for"@),
        text_spec(*catalogs, locale, "agent_sdk.provider.table.status"@),
    ]);
    cells
}

/// Why a provider cannot be set up.
#[derive(Clone, Copy, Debug, PartialEq, Eq)]
pub enum ProviderSetupError {
    /// The provider may be linked both for the user and for the team, and
    /// neither was asked for.
    ScopeRequired,
    /// A team link was asked for, and the user is on no team.
    UserNotOnTeam,
}

/// Whether the link is for the team: asking for a personal link wins; with
/// neither asked for, the team when only the team is allowed; `None` when
/// both are allowed and neither was asked for.
pub open spec fn use_team_auth_spec(p: ProviderType, team: bool, personal: bool) -> Option<bool> {
    if !team && !personal {
        if p.allowed_in_team_context && p.allowed_in_personal_context {
            None
        } else {
            Some(p.allowed_in_team_context)
        }
    } else if personal {
        Some(false)
    } else {
        Some(team)
    }
}

/// The OAuth connect URL on `server_url` for a provider, for the team
/// `team_uid` or for the user.
pub open spec fn setup_url_spec(
    p: ProviderType,
    team: bool,
    personal: bool,
    server_url: Seq<char>,
    team_uid: Option<Seq<char>>,
) -> Result<Seq<char>, ProviderSetupError> {
    match use_team_auth_spec(p, team, personal) {
        None => Err(ProviderSetupError::ScopeRequired),
        Some(true) => match team_uid {
            None => Err(ProviderSetupError::UserNotOnTeam),
            Some(uid) => Ok(
                server_url + "/oauth/connect/"@ + p.slug@ + "?principalType=team&principalId="@ + uid,
            ),
        },
        Some(false) => Ok(server_url + "/oauth/connect/"@ + p.slug@),
    }
}

/// The URL that links `provider` (see [`setup_url_spec`]); `team_uid` is
/// the user's current team, if any.
pub fn provider_setup_url(
    provider: &ProviderType,
    team: bool,
    personal: bool,
    server_url: &str,
    team_uid: Option<&str>,
) -> (r: Result<String, ProviderSetupError>)
    ensures
        match r {
            Ok(url) => setup_url_spec(
                *provider,
                team,
                personal,
                server_url@,
                match team_uid {
                    Some(u) => Some(u@),
                    None => None,
                },
            ) == Ok::<Seq<char>, ProviderSetupError>(url@),
            Err(e) => setup_url_spec(
                *provider,
                team,
                personal,
                server_url@,
                match team_uid {
                    Some(u) => Some(u@),
                    None => None,
                },
            ) == Err::<Seq<char>, ProviderSetupError>(e),
        },
{
    let mut use_team_auth = team;
    if !team && !personal {
        if provider.allowed_in_team_context && provider.allowed_in_personal_context {
            return Err(ProviderSetupError::ScopeRequired);
        }
        use_team_auth = provider.allowed_in_team_context;
    } else if personal {
        use_team_auth = false;
    }
    let mut url: Vec<char> = Vec::new();
    extend_str(&mut url, server_url);
    extend_str(&mut url, "/oauth/connect/");
    extend_str(&mut url, provider.slug.as_str());
    if use_team_auth {
        match team_uid {
            Some(uid) => {
                extend_str(&mut url, "?principalType=team&principalId=");
                extend_str(&mut url, uid);
            },
            None => {
                return Err(ProviderSetupError::UserNotOnTeam);
            },
        }
    }
    Ok(string_from_chars(url.as_slice()))
}

impl ProviderSetupError {
    /// The message for the error in `locale`; a missing scope names the
    /// provider's slug. `Err` where the template names another placeholder.
    pub fn message(&self, provider: &ProviderType, catalogs: &CatalogBundle, locale: LocaleId) -> (r: Result<
        String,
        PlaceholderError,
    >)
        ensures
            match self {
                ProviderSetupError::ScopeRequired => match r {
                    Ok(s) => fill_spec(
                        text_spec(*catalogs, locale, "agent_sdk.provider.error.scope_required"@),
                        seq![("provider"@, provider.slug@)],
                    ) == Some(s@),
                    Err(_) => fill_spec(
                        text_spec(*catalogs, locale, "agent_sdk.provider.error.scope_required"@),
                        seq![("provider"@, provider.slug@)],
                    ) is None,
                },
                ProviderSetupError::UserNotOnTeam => r matches Ok(s) && s@ == text_spec(
                    *catalogs,
                    locale,
                    "agent_sdk.common.error.user_not_on_team"@,
                ),
            },
    {
        match self {
            ProviderSetupError::ScopeRequired => {
                let mut args: Vec<(String, String)> = Vec::new();
                args.push(("provider".to_owned(), provider.slug.clone()));
                assert(pairs_view(args@) =~= seq![("provider"@, provider.slug@)]);
                catalogs.render(
                    locale,
                    &LocalizedMessage { key: "agent_sdk.provider.error.scope_required".to_owned(), args },
                )
            },
            ProviderSetupError::UserNotOnTeam => Ok(
                catalogs.text(locale, "agent_sdk.common.error.user_not_on_team"),
            ),
        }
    }
}

/// The line that asks the user to open `url` to link the provider, in
/// `locale`; `Err` where the template names another placeholder.
pub fn authenticate_message(
    provider: &ProviderType,
    url: &str,
    catalogs: &CatalogBundle,
    locale: LocaleId,
) -> (r: Result<String, PlaceholderError>)
    ensures
        match r {
            Ok(s) => fill_spec(
                text_spec(*catalogs, locale, "agent_sdk.provider.output.authenticate_url"@),
                seq![("provider"@, provider.slug@), ("url"@, url@)],
            ) == Some(s@),
            Err(_) => fill_spec(
                text_spec(*catalogs, locale, "agent_sdk.provider.output.authenticate_url"@),
                seq![("provider"@, provider.slug@), ("url"@, url@)],
            ) is None,
        },
{
    catalogs.render(
        locale,
        &LocalizedMessage {
            key: "agent_sdk.provider.output.authenticate_url".to_owned(),
            args: args2("provider", provider.slug.as_str(), "url", url),
        },
    )
}

/// Asking for a personal link always gives the plain connect URL, whatever
/// team the user is on.
pub proof fn law_personal_link_is_plain(
    p: ProviderType,
    team: bool,
    server_url: Seq<char>,
    team_uid: Option<Seq<char>>,
)
    ensures
        setup_url_spec(p, team, true, server_url, team_uid) == Ok::<Seq<char>, ProviderSetupError>(
            server_url + "/oauth/connect/"@ + p.slug@,
        ),
{
}

/// With neither `--team` nor `--personal`, a provider that cannot be linked
/// for a team is linked for the user: the plain connect URL, as if a personal
/// link had been asked for.
pub proof fn law_provider_without_team_context_links_for_user(
    p: ProviderType,
    server_url: Seq<char>,
    team_uid: Option<Seq<char>>,
)
    requires
        !p.allowed_in_team_context,
    ensures
        setup_url_spec(p, false, false, server_url, team_uid) == Ok::<Seq<char>, ProviderSetupError>(
            server_url + "/oauth/connect/"@ + p.slug@,
        ),
        setup_url_spec(p, false, false, server_url, team_uid) == setup_url_spec(
            p,
            false,
            true,
            server_url,
            team_uid,
        ),
{
}

/// With neither flag, a provider that can be linked only for a team is linked
/// for the team, as if `--team` had been asked for.
pub proof fn law_team_only_provider_links_for_team(
    p: ProviderType,
    server_url: Seq<char>,
    team_uid: Option<Seq<char>>,
)
    requires
        p.allowed_in_team_context,
        !p.allowed_in_personal_context,
    ensures
        setup_url_spec(p, false, false, server_url, team_uid) == setup_url_spec(
            p,
            true,
            false,
            server_url,
            team_uid,
        ),
{
}

} // verus!
