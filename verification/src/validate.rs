//! The answer to "validate an address": its status, its payload and the
//! schema that the payload is decoded by.

use crate::json::{
    optional_text, required_flag, required_text, JsonDocument, JsonValueView, Members,
};
use crate::text::text_view;
use crate::Payload;
use vstd::prelude::*;

verus! {

/// The verdict of the service on one address.
#[derive(Debug, Clone, Copy, PartialEq, Eq, Structural)]
pub enum ResponseSuccessStatus {
    Valid,
    Invalid,
    CatchAll,
    Unknown,
    Spamtrap,
    Abuse,
    DoNotMail,
}

impl ResponseSuccessStatus {
    /// The canonical spelling of a status: lower case, words joined by `_`.
    pub open spec fn canonical_name(self) -> Seq<char> {
        match self {
            ResponseSuccessStatus::Valid => "valid"@,
            ResponseSuccessStatus::Invalid => "invalid"@,
            ResponseSuccessStatus::CatchAll => "catch_all"@,
            ResponseSuccessStatus::Unknown => "unknown"@,
            ResponseSuccessStatus::Spamtrap => "spamtrap"@,
            ResponseSuccessStatus::Abuse => "abuse"@,
            ResponseSuccessStatus::DoNotMail => "do_not_mail"@,
        }
    }

    /// The spelling of a status in a response of the service. It is the
    /// canonical one but for `CatchAll`, which the service writes with a hyphen.
    pub open spec fn wire_name(self) -> Seq<char> {
        match self {
            ResponseSuccessStatus::CatchAll => "catch-all"@,
            _ => self.canonical_name(),
        }
    }

    /// The status that a response of the service spells `wire`: the one with
    /// that wire name, and `Unknown` for any other text.
    pub open spec fn from_wire(wire: Seq<char>) -> ResponseSuccessStatus {
        if wire == "valid"@ {
            ResponseSuccessStatus::Valid
        } else if wire == "invalid"@ {
            ResponseSuccessStatus::Invalid
        } else if wire == "catch-all"@ {
            ResponseSuccessStatus::CatchAll
        } else if wire == "spamtrap"@ {
            ResponseSuccessStatus::Spamtrap
        } else if wire == "abuse"@ {
            ResponseSuccessStatus::Abuse
        } else if wire == "do_not_mail"@ {
            ResponseSuccessStatus::DoNotMail
        } else {
            ResponseSuccessStatus::Unknown
        }
    }

    /// Reads a status as the service writes it. Never fails: a text that is no
    /// wire name gives `Unknown`.
    pub fn parse(wire: &str) -> (status: ResponseSuccessStatus)
        ensures
            status == ResponseSuccessStatus::from_wire(wire@),
    {
        if wire.eq("valid") {
            ResponseSuccessStatus::Valid
        } else if wire.eq("invalid") {
            ResponseSuccessStatus::Invalid
        } else if wire.eq("catch-all") {
            ResponseSuccessStatus::CatchAll
        } else if wire.eq("spamtrap") {
            ResponseSuccessStatus::Spamtrap
        } else if wire.eq("abuse") {
            ResponseSuccessStatus::Abuse
        } else if wire.eq("do_not_mail") {
            ResponseSuccessStatus::DoNotMail
        } else {
            ResponseSuccessStatus::Unknown
        }
    }

    pub fn as_str(&self) -> (name: &str)
        ensures
            name@ == self.canonical_name(),
    {
        match self {
            ResponseSuccessStatus::Valid => "valid",
            ResponseSuccessStatus::Invalid => "invalid",
            ResponseSuccessStatus::CatchAll => "catch_all",
            ResponseSuccessStatus::Unknown => "unknown",
            ResponseSuccessStatus::Spamtrap => "spamtrap",
            ResponseSuccessStatus::Abuse => "abuse",
            ResponseSuccessStatus::DoNotMail => "do_not_mail",
        }
    }

    pub fn is_valid(&self) -> (yes: bool)
        ensures
            yes == (*self is Valid),
    {
        matches!(self, ResponseSuccessStatus::Valid)
    }

    pub fn is_invalid(&self) -> (yes: bool)
        ensures
            yes == (*self is Invalid),
    {
        matches!(self, ResponseSuccessStatus::Invalid)
    }

    pub fn is_catch_all(&self) -> (yes: bool)
        ensures
            yes == (*self is CatchAll),
    {
        matches!(self, ResponseSuccessStatus::CatchAll)
    }

    pub fn is_unknown(&self) -> (yes: bool)
        ensures
            yes == (*self is Unknown),
    {
        matches!(self, ResponseSuccessStatus::Unknown)
    }

    pub fn is_spamtrap(&self) -> (yes: bool)
        ensures
            yes == (*self is Spamtrap),
    {
        matches!(self, ResponseSuccessStatus::Spamtrap)
    }

    pub fn is_abuse(&self) -> (yes: bool)
        ensures
            yes == (*self is Abuse),
    {
        matches!(self, ResponseSuccessStatus::Abuse)
    }

    pub fn is_do_not_mail(&self) -> (yes: bool)
        ensures
            yes == (*self is DoNotMail),
    {
        matches!(self, ResponseSuccessStatus::DoNotMail)
    }
}

impl From<String> for ResponseSuccessStatus {
    /// Reads a status as the service writes it, as `parse` does: `"catch-all"`
    /// is `CatchAll`, and a text that is no wire name, the canonical
    /// `"catch_all"` among them, is `Unknown`.
    fn from(status: String) -> (read: ResponseSuccessStatus) {
        ResponseSuccessStatus::parse(status.as_str())
    }
}

impl vstd::std_specs::convert::FromSpecImpl<String> for ResponseSuccessStatus {
    open spec fn obeys_from_spec() -> bool {
        true
    }

    open spec fn from_spec(status: String) -> ResponseSuccessStatus {
        ResponseSuccessStatus::from_wire(status@)
    }
}

/// What the service says about one address.
#[derive(Debug, PartialEq, Eq)]
pub struct ResponseSuccess {
    /// The address that was asked about.
    pub address: String,
    /// The verdict.
    pub status: ResponseSuccessStatus,
    /// Why that verdict was reached; empty where the service gives no reason.
    pub sub_status: String,
    /// Whether the address is with a free provider.
    pub free_email: bool,
    /// A correction the service suggests for a likely typo.
    pub did_you_mean: Option<String>,
    /// The part of the address before the `@`.
    pub account: Option<String>,
    /// The part of the address after the `@`.
    pub domain: Option<String>,
    /// The age of the domain in days, as the service wrote it.
    pub domain_age_days: Option<String>,
    /// The provider that runs the domain's mail.
    pub smtp_provider: Option<String>,
    /// The preferred MX record of the domain.
    pub mx_record: Option<String>,
    /// Whether the domain has an MX record. The service writes this as the
    /// text `"true"` or `"false"`, and the text is kept as it came.
    pub mx_found: Option<String>,
    /// The first name of the owner of the address.
    pub firstname: Option<String>,
    /// The last name of the owner of the address.
    pub lastname: Option<String>,
    /// The gender of the owner of the address.
    pub gender: Option<String>,
    /// The country of the IP address that was passed.
    pub country: Option<String>,
    /// The region of the IP address that was passed.
    pub region: Option<String>,
    /// The city of the IP address that was passed.
    pub city: Option<String>,
    /// The zip code of the IP address that was passed.
    pub zipcode: Option<String>,
    /// When the address was validated (UTC), as the service wrote it.
    pub processed_at: String,
}

/// What a [`ResponseSuccess`] stands for.
pub struct ResponseSuccessView {
    pub address: Seq<char>,
    pub status: ResponseSuccessStatus,
    pub sub_status: Seq<char>,
    pub free_email: bool,
    pub did_you_mean: Option<Seq<char>>,
    pub account: Option<Seq<char>>,
    pub domain: Option<Seq<char>>,
    pub domain_age_days: Option<Seq<char>>,
    pub smtp_provider: Option<Seq<char>>,
    pub mx_record: Option<Seq<char>>,
    pub mx_found: Option<Seq<char>>,
    pub firstname: Option<Seq<char>>,
    pub lastname: Option<Seq<char>>,
    pub gender: Option<Seq<char>>,
    pub country: Option<Seq<char>>,
    pub region: Option<Seq<char>>,
    pub city: Option<Seq<char>>,
    pub zipcode: Option<Seq<char>>,
    pub processed_at: Seq<char>,
}

impl View for ResponseSuccess {
    type V = ResponseSuccessView;

    open spec fn view(&self) -> ResponseSuccessView {
        ResponseSuccessView {
            address: self.address@,
            status: self.status,
            sub_status: self.sub_status@,
            free_email: self.free_email,
            did_you_mean: text_view(self.did_you_mean),
            account: text_view(self.account),
            domain: text_view(self.domain),
            domain_age_days: text_view(self.domain_age_days),
            smtp_provider: text_view(self.smtp_provider),
            mx_record: text_view(self.mx_record),
            mx_found: text_view(self.mx_found),
            firstname: text_view(self.firstname),
            lastname: text_view(self.lastname),
            gender: text_view(self.gender),
            country: text_view(self.country),
            region: text_view(self.region),
            city: text_view(self.city),
            zipcode: text_view(self.zipcode),
            processed_at: self.processed_at@,
        }
    }
}

impl ResponseSuccess {
    /// Whether an object has the shape of this payload: `address`,
    /// `sub_status` and `processed_at` are texts, `status` is a text,
    /// `free_email` is a boolean, and each of the other members is missing,
    /// `null` or a text.
    pub open spec fn fits(object: Members) -> bool {
        &&& required_text(object, "address"@) is Some
        &&& required_text(object, "status"@) is Some
        &&& required_text(object, "sub_status"@) is Some
        &&& required_flag(object, "free_email"@) is Some
        &&& optional_text(object, "did_you_mean"@) is Some
        &&& optional_text(object, "account"@) is Some
        &&& optional_text(object, "domain"@) is Some
        &&& optional_text(object, "domain_age_days"@) is Some
        &&& optional_text(object, "smtp_provider"@) is Some
        &&& optional_text(object, "mx_record"@) is Some
        &&& optional_text(object, "mx_found"@) is Some
        &&& optional_text(object, "firstname"@) is Some
        &&& optional_text(object, "lastname"@) is Some
        &&& optional_text(object, "gender"@) is Some
        &&& optional_text(object, "country"@) is Some
        &&& optional_text(object, "region"@) is Some
        &&& optional_text(object, "city"@) is Some
        &&& optional_text(object, "zipcode"@) is Some
        &&& required_text(object, "processed_at"@) is Some
    }
}

impl Payload for ResponseSuccess {
    /// What this payload's schema makes of an object: `None` where the object
    /// does not fit. A member that is missing or `null` gives `None` in its
    /// field, never an empty text; `status` is read by its wire name; and
    /// `mx_found` keeps the text that the service sent.
    open spec fn schema(object: Members) -> Option<ResponseSuccessView> {
        if Self::fits(object) {
            Some(
                ResponseSuccessView {
                    address: required_text(object, "address"@)->0,
                    status: ResponseSuccessStatus::from_wire(required_text(object, "status"@)->0),
                    sub_status: required_text(object, "sub_status"@)->0,
                    free_email: required_flag(object, "free_email"@)->0,
                    did_you_mean: optional_text(object, "did_you_mean"@)->0,
                    account: optional_text(object, "account"@)->0,
                    domain: optional_text(object, "domain"@)->0,
                    domain_age_days: optional_text(object, "domain_age_days"@)->0,
                    smtp_provider: optional_text(object, "smtp_provider"@)->0,
                    mx_record: optional_text(object, "mx_record"@)->0,
                    mx_found: optional_text(object, "mx_found"@)->0,
                    firstname: optional_text(object, "firstname"@)->0,
                    lastname: optional_text(object, "lastname"@)->0,
                    gender: optional_text(object, "gender"@)->0,
                    country: optional_text(object, "country"@)->0,
                    region: optional_text(object, "region"@)->0,
                    city: optional_text(object, "city"@)->0,
                    zipcode: optional_text(object, "zipcode"@)->0,
                    processed_at: required_text(object, "processed_at"@)->0,
                },
            )
        } else {
            None
        }
    }

    fn decode(document: &JsonDocument) -> (payload: Option<ResponseSuccess>) {
        let address = document.required_text("address")?;
        let status_text = document.required_text("status")?;
        let status = ResponseSuccessStatus::parse(status_text.as_str());
        let sub_status = document.required_text("sub_status")?;
        let free_email = document.required_flag("free_email")?;
        let did_you_mean = document.optional_text("did_you_mean")?;
        let account = document.optional_text("account")?;
        let domain = document.optional_text("domain")?;
        let domain_age_days = document.optional_text("domain_age_days")?;
        let smtp_provider = document.optional_text("smtp_provider")?;
        let mx_record = document.optional_text("mx_record")?;
        let mx_found = document.optional_text("mx_found")?;
        let firstname = document.optional_text("firstname")?;
        let lastname = document.optional_text("lastname")?;
        let gender = document.optional_text("gender")?;
        let country = document.optional_text("country")?;
        let region = document.optional_text("region")?;
        let city = document.optional_text("city")?;
        let zipcode = document.optional_text("zipcode")?;
        let processed_at = document.required_text("processed_at")?;
        Some(
            ResponseSuccess {
                address,
                status,
                sub_status,
                free_email,
                did_you_mean,
                account,
                domain,
                domain_age_days,
                smtp_provider,
                mx_record,
                mx_found,
                firstname,
                lastname,
                gender,
                country,
                region,
                city,
                zipcode,
                processed_at,
            },
        )
    }
}

/// The names of the five required members differ from one another and from
/// the names of the other members.
proof fn lemma_member_names_differ()
    ensures
        "address"@.len() == 7 && "address"@[0] == 'a' && "address"@[1] == 'd',
        "status"@.len() == 6 && "status"@[0] == 's',
        "sub_status"@.len() == 10 && "sub_status"@[0] == 's',
        "free_email"@.len() == 10 && "free_email"@[0] == 'f',
        "processed_at"@.len() == 12 && "processed_at"@[0] == 'p',
        "did_you_mean"@.len() == 12 && "did_you_mean"@[0] == 'd',
        "account"@.len() == 7 && "account"@[1] == 'c',
        "domain"@.len() == 6 && "domain"@[0] == 'd',
        "domain_age_days"@.len() == 15,
        "smtp_provider"@.len() == 13,
        "mx_record"@.len() == 9,
        "mx_found"@.len() == 8,
        "firstname"@.len() == 9,
        "lastname"@.len() == 8,
        "gender"@.len() == 6 && "gender"@[0] == 'g',
        "country"@.len() == 7 && "country"@[0] == 'c',
        "region"@.len() == 6 && "region"@[0] == 'r',
        "city"@.len() == 4,
        "zipcode"@.len() == 7 && "zipcode"@[0] == 'z',
{
    reveal_strlit("address");
    reveal_strlit("status");
    reveal_strlit("sub_status");
    reveal_strlit("free_email");
    reveal_strlit("did_you_mean");
    reveal_strlit("account");
    reveal_strlit("domain");
    reveal_strlit("domain_age_days");
    reveal_strlit("smtp_provider");
    reveal_strlit("mx_record");
    reveal_strlit("mx_found");
    reveal_strlit("firstname");
    reveal_strlit("lastname");
    reveal_strlit("gender");
    reveal_strlit("country");
    reveal_strlit("region");
    reveal_strlit("city");
    reveal_strlit("zipcode");
    reveal_strlit("processed_at");
}

/// The object with the five members that the schema requires, and no other.
pub open spec fn required_members(
    address: Seq<char>,
    status: Seq<char>,
    sub_status: Seq<char>,
    free_email: bool,
    processed_at: Seq<char>,
) -> Members {
    Map::empty().insert("address"@, JsonValueView::Text(address)).insert(
        "status"@,
        JsonValueView::Text(status),
    ).insert("sub_status"@, JsonValueView::Text(sub_status)).insert(
        "free_email"@,
        JsonValueView::Bool(free_email),
    ).insert("processed_at"@, JsonValueView::Text(processed_at))
}

/// The five required members are enough for a payload, and every member that
/// is not there decodes to `None`, not to an empty text.
pub proof fn lemma_required_members_suffice(
    address: Seq<char>,
    status: Seq<char>,
    sub_status: Seq<char>,
    free_email: bool,
    processed_at: Seq<char>,
)
    ensures
        ResponseSuccess::schema(
            required_members(address, status, sub_status, free_email, processed_at),
        ) == Some(
            ResponseSuccessView {
                address,
                status: ResponseSuccessStatus::from_wire(status),
                sub_status,
                free_email,
                did_you_mean: None,
                account: None,
                domain: None,
                domain_age_days: None,
                smtp_provider: None,
                mx_record: None,
                mx_found: None,
                firstname: None,
                lastname: None,
                gender: None,
                country: None,
                region: None,
                city: None,
                zipcode: None,
                processed_at,
            },
        ),
{
    lemma_member_names_differ();
    let object = required_members(address, status, sub_status, free_email, processed_at);
    assert(object.contains_key("address"@) && object["address"@] == JsonValueView::Text(address));
    assert(object.contains_key("status"@) && object["status"@] == JsonValueView::Text(status));
    assert(object.contains_key("sub_status"@) && object["sub_status"@] == JsonValueView::Text(
        sub_status,
    ));
    assert(object.contains_key("free_email"@) && object["free_email"@] == JsonValueView::Bool(
        free_email,
    ));
    assert(object.contains_key("processed_at"@) && object["processed_at"@]
        == JsonValueView::Text(processed_at));
    assert(!object.contains_key("did_you_mean"@));
    assert(!object.contains_key("account"@));
    assert(!object.contains_key("domain"@));
    assert(!object.contains_key("domain_age_days"@));
    assert(!object.contains_key("smtp_provider"@));
    assert(!object.contains_key("mx_record"@));
    assert(!object.contains_key("mx_found"@));
    assert(!object.contains_key("firstname"@));
    assert(!object.contains_key("lastname"@));
    assert(!object.contains_key("gender"@));
    assert(!object.contains_key("country"@));
    assert(!object.contains_key("region"@));
    assert(!object.contains_key("city"@));
    assert(!object.contains_key("zipcode"@));
}

/// A payload keeps the text of `mx_found` as the service sent it.
pub proof fn lemma_mx_found_is_kept(object: Members, sent: Seq<char>)
    requires
        ResponseSuccess::fits(object),
        object.contains_key("mx_found"@),
        object["mx_found"@] == JsonValueView::Text(sent),
    ensures
        ResponseSuccess::schema(object) is Some,
        ResponseSuccess::schema(object)->0.mx_found == Some(sent),
{
}

/// The wire names and the canonical names are eight different texts.
proof fn lemma_names_differ()
    ensures
        "valid"@.len() == 5,
        "abuse"@.len() == 5,
        "valid"@[0] == 'v',
        "abuse"@[0] == 'a',
        "invalid"@.len() == 7,
        "unknown"@.len() == 7,
        "invalid"@[0] == 'i',
        "unknown"@[0] == 'u',
        "spamtrap"@.len() == 8,
        "catch-all"@.len() == 9,
        "catch_all"@.len() == 9,
        "catch-all"@[5] == '-',
        "catch_all"@[5] == '_',
        "do_not_mail"@.len() == 11,
{
    reveal_strlit("valid");
    reveal_strlit("invalid");
    reveal_strlit("catch-all");
    reveal_strlit("catch_all");
    reveal_strlit("unknown");
    reveal_strlit("spamtrap");
    reveal_strlit("abuse");
    reveal_strlit("do_not_mail");
}

/// Reading gives back the status whose wire name was written.
pub proof fn lemma_parse_wire_name(status: ResponseSuccessStatus)
    ensures
        ResponseSuccessStatus::from_wire(status.wire_name()) == status,
{
    lemma_names_differ();
}

/// Reading the canonical name of a status as a wire name gives that status
/// back, for every status but `CatchAll`.
pub proof fn lemma_parse_canonical_name(status: ResponseSuccessStatus)
    requires
        !(status is CatchAll),
    ensures
        ResponseSuccessStatus::from_wire(status.canonical_name()) == status,
{
    lemma_names_differ();
}

/// `CatchAll` has two spellings: the service writes it with a hyphen, and its
/// canonical name has an underscore, which is no wire name.
pub proof fn lemma_catch_all_spellings()
    ensures
        ResponseSuccessStatus::from_wire("catch-all"@) == ResponseSuccessStatus::CatchAll,
        ResponseSuccessStatus::CatchAll.canonical_name() == "catch_all"@,
        ResponseSuccessStatus::from_wire("catch_all"@) == ResponseSuccessStatus::Unknown,
{
    lemma_names_differ();
}

/// A text that is the wire name of no status reads as `Unknown`.
pub proof fn lemma_parse_unrecognized(wire: Seq<char>)
    requires
        forall|status: ResponseSuccessStatus| wire != #[trigger] status.wire_name(),
    ensures
        ResponseSuccessStatus::from_wire(wire) == ResponseSuccessStatus::Unknown,
{
    assert(wire != ResponseSuccessStatus::Valid.wire_name());
    assert(wire != ResponseSuccessStatus::Invalid.wire_name());
    assert(wire != ResponseSuccessStatus::CatchAll.wire_name());
    assert(wire != ResponseSuccessStatus::Spamtrap.wire_name());
    assert(wire != ResponseSuccessStatus::Abuse.wire_name());
    assert(wire != ResponseSuccessStatus::DoNotMail.wire_name());
}

} // verus!
