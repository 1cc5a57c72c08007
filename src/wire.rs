use vstd::prelude::*;

verus! {

/// The largest payload either end reads from one datagram.
pub const MAX_PAYLOAD: usize = 8192;

/// A request from the client to the store.
#[derive(Clone, Debug)]
pub enum Instruction {
    AddPhoneNumber { key: String, number: String },
    DeleteUser { key: String },
    EditNumber { key: String, number: String },
    GetAllUsers,
}

/// The store's answer to one instruction.
#[derive(Clone, Debug)]
pub enum Response {
    Fail { message: String },
    Number { number: String },
    AllUsers(Vec<(String, String)>),
    Success,
}

/// A payload that is not the encoding of a message.
#[derive(Clone, Copy, Debug, PartialEq, Eq)]
pub enum WireError {
    MalformedMessage,
}

pub enum InstructionView {
    AddPhoneNumber { key: Seq<char>, number: Seq<char> },
    DeleteUser { key: Seq<char> },
    EditNumber { key: Seq<char>, number: Seq<char> },
    GetAllUsers,
}

pub enum ResponseView {
    Fail { message: Seq<char> },
    Number { number: Seq<char> },
    AllUsers(Seq<(Seq<char>, Seq<char>)>),
    Success,
}

pub open spec fn pair_view(p: (String, String)) -> (Seq<char>, Seq<char>) {
    (p.0@, p.1@)
}

pub open spec fn strings_view(v: Seq<String>) -> Seq<Seq<char>> {
    v.map_values(|s: String| s@)
}

impl View for Instruction {
    type V = InstructionView;

    open spec fn view(&self) -> InstructionView {
        match self {
            Instruction::AddPhoneNumber { key, number } => InstructionView::AddPhoneNumber {
                key: key@,
                number: number@,
            },
            Instruction::DeleteUser { key } => InstructionView::DeleteUser { key: key@ },
            Instruction::EditNumber { key, number } => InstructionView::EditNumber {
                key: key@,
                number: number@,
            },
            Instruction::GetAllUsers => InstructionView::GetAllUsers,
        }
    }
}

impl View for Response {
    type V = ResponseView;

    open spec fn view(&self) -> ResponseView {
        match self {
            Response::Fail { message } => ResponseView::Fail { message: message@ },
            Response::Number { number } => ResponseView::Number { number: number@ },
            Response::AllUsers(pairs) => ResponseView::AllUsers(
                pairs@.map_values(|p: (String, String)| pair_view(p)),
            ),
            Response::Success => ResponseView::Success,
        }
    }
}

/// The JSON array of strings that serde_json writes for `items`.
pub uninterp spec fn json_array_of(items: Seq<Seq<char>>) -> Seq<u8>;

/// The array of strings that serde_json reads from `bytes`, if they hold one.
pub uninterp spec fn json_array_parse(bytes: Seq<u8>) -> Option<Seq<Seq<char>>>;

#[verifier::external_type_specification]
#[verifier::external_body]
pub struct ExJsonError(serde_json::Error);

/// Relies on `serde_json::to_vec` on a `Vec<String>`. It writes into a
/// `Vec<u8>`, whose `io::Write` never fails, and a string always serialises,
/// so the call succeeds.
#[verifier::external_body]
fn write_json_array(items: &Vec<String>) -> (r: Vec<u8>)
    ensures
        r@ == json_array_of(strings_view(items@)),
{
    serde_json::to_vec(items).unwrap()
}

/// Relies on `serde_json::from_slice::<Vec<String>>`: it reads a JSON array
/// of strings, or fails; the outcome depends on the bytes alone.
#[verifier::external_body]
fn read_json_array(bytes: &[u8]) -> (r: Result<Vec<String>, serde_json::Error>)
    ensures
        match r {
            Ok(items) => json_array_parse(bytes@) == Some(strings_view(items@)),
            Err(_) => json_array_parse(bytes@) is None,
        },
{
    serde_json::from_slice::<Vec<String>>(bytes)
}

pub open spec fn tag_add() -> Seq<char> {
    "AddPhoneNumber"@
}

pub open spec fn tag_delete() -> Seq<char> {
    "DeleteUser"@
}

pub open spec fn tag_edit() -> Seq<char> {
    "EditNumber"@
}

pub open spec fn tag_get_all() -> Seq<char> {
    "GetAllUsers"@
}

pub open spec fn tag_fail() -> Seq<char> {
    "Fail"@
}

pub open spec fn tag_number() -> Seq<char> {
    "Number"@
}

pub open spec fn tag_all_users() -> Seq<char> {
    "AllUsers"@
}

pub open spec fn tag_success() -> Seq<char> {
    "Success"@
}

/// Name and number of each pair, one after the other.
pub open spec fn flatten_pairs(p: Seq<(Seq<char>, Seq<char>)>) -> Seq<Seq<char>> {
    Seq::new(2 * p.len(), |j: int| if j % 2 == 0 { p[j / 2].0 } else { p[j / 2].1 })
}

/// The pairs read from a flat sequence of even length.
pub open spec fn pairs_of(f: Seq<Seq<char>>) -> Seq<(Seq<char>, Seq<char>)> {
    Seq::new((f.len() / 2) as nat, |k: int| (f[2 * k], f[2 * k + 1]))
}

/// An instruction as a tag followed by its fields.
pub open spec fn instruction_fields(v: InstructionView) -> Seq<Seq<char>> {
    match v {
        InstructionView::AddPhoneNumber { key, number } => seq![tag_add(), key, number],
        InstructionView::DeleteUser { key } => seq![tag_delete(), key],
        InstructionView::EditNumber { key, number } => seq![tag_edit(), key, number],
        InstructionView::GetAllUsers => seq![tag_get_all()],
    }
}

/// A response as a tag followed by its fields.
pub open spec fn response_fields(v: ResponseView) -> Seq<Seq<char>> {
    match v {
        ResponseView::Fail { message } => seq![tag_fail(), message],
        ResponseView::Number { number } => seq![tag_number(), number],
        ResponseView::AllUsers(p) => seq![tag_all_users()] + flatten_pairs(p),
        ResponseView::Success => seq![tag_success()],
    }
}

/// The instruction that a tag and fields stand for, if any.
pub open spec fn parse_instruction(f: Seq<Seq<char>>) -> Option<InstructionView> {
    if f.len() == 3 && f[0] == tag_add() {
        Some(InstructionView::AddPhoneNumber { key: f[1], number: f[2] })
    } else if f.len() == 2 && f[0] == tag_delete() {
        Some(InstructionView::DeleteUser { key: f[1] })
    } else if f.len() == 3 && f[0] == tag_edit() {
        Some(InstructionView::EditNumber { key: f[1], number: f[2] })
    } else if f.len() == 1 && f[0] == tag_get_all() {
        Some(InstructionView::GetAllUsers)
    } else {
        None
    }
}

/// The response that a tag and fields stand for, if any.
pub open spec fn parse_response(f: Seq<Seq<char>>) -> Option<ResponseView> {
    if f.len() == 2 && f[0] == tag_fail() {
        Some(ResponseView::Fail { message: f[1] })
    } else if f.len() == 2 && f[0] == tag_number() {
        Some(ResponseView::Number { number: f[1] })
    } else if f.len() >= 1 && f[0] == tag_all_users() && (f.len() - 1) % 2 == 0 {
        Some(ResponseView::AllUsers(pairs_of(f.drop_first())))
    } else if f.len() == 1 && f[0] == tag_success() {
        Some(ResponseView::Success)
    } else {
        None
    }
}

/// What a payload decodes to as an instruction, if anything.
pub open spec fn decode_instruction_spec(bytes: Seq<u8>) -> Option<InstructionView> {
    match json_array_parse(bytes) {
        Some(f) => parse_instruction(f),
        None => None,
    }
}

/// What a payload decodes to as a response, if anything.
pub open spec fn decode_response_spec(bytes: Seq<u8>) -> Option<ResponseView> {
    match json_array_parse(bytes) {
        Some(f) => parse_response(f),
        None => None,
    }
}

proof fn lemma_tags_distinct()
    ensures
        tag_add() != tag_delete() && tag_add() != tag_edit() && tag_add() != tag_get_all(),
        tag_delete() != tag_edit() && tag_delete() != tag_get_all(),
        tag_edit() != tag_get_all(),
        tag_fail() != tag_number() && tag_fail() != tag_all_users() && tag_fail() != tag_success(),
        tag_number() != tag_all_users() && tag_number() != tag_success(),
        tag_all_users() != tag_success(),
{
    reveal_strlit("AddPhoneNumber");
    reveal_strlit("DeleteUser");
    reveal_strlit("EditNumber");
    reveal_strlit("GetAllUsers");
    reveal_strlit("Fail");
    reveal_strlit("Number");
    reveal_strlit("AllUsers");
    reveal_strlit("Success");
    assert(tag_add().len() != tag_delete().len());
    assert(tag_add().len() != tag_edit().len());
    assert(tag_add().len() != tag_get_all().len());
    assert(tag_delete()[0] != tag_edit()[0]);
    assert(tag_delete().len() != tag_get_all().len());
    assert(tag_edit().len() != tag_get_all().len());
    assert(tag_fail().len() != tag_number().len());
    assert(tag_fail().len() != tag_all_users().len());
    assert(tag_fail().len() != tag_success().len());
    assert(tag_number().len() != tag_all_users().len());
    assert(tag_number()[0] != tag_success()[0]);
    assert(tag_all_users().len() != tag_success().len());
}

/// Reading back the fields of an instruction gives the instruction.
pub proof fn lemma_instruction_round_trip(v: InstructionView)
    ensures
        parse_instruction(instruction_fields(v)) == Some(v),
{
    lemma_tags_distinct();
}

/// Reading back the fields of a response gives the response, whatever the
/// number of pairs it carries.
pub proof fn lemma_response_round_trip(v: ResponseView)
    ensures
        parse_response(response_fields(v)) == Some(v),
{
    lemma_tags_distinct();
    if let ResponseView::AllUsers(p) = v {
        let f = response_fields(v);
        assert(f.drop_first() =~= flatten_pairs(p));
        assert(pairs_of(flatten_pairs(p)) =~= p);
    }
}

impl Instruction {
    /// The tag of the instruction followed by its fields.
    pub fn to_fields(&self) -> (r: Vec<String>)
        ensures
            strings_view(r@) == instruction_fields(self@),
    {
        let mut r: Vec<String> = Vec::new();
        match self {
            Instruction::AddPhoneNumber { key, number } => {
                r.push("AddPhoneNumber".to_owned());
                r.push(key.clone());
                r.push(number.clone());
            },
            Instruction::DeleteUser { key } => {
                r.push("DeleteUser".to_owned());
                r.push(key.clone());
            },
            Instruction::EditNumber { key, number } => {
                r.push("EditNumber".to_owned());
                r.push(key.clone());
                r.push(number.clone());
            },
            Instruction::GetAllUsers => {
                r.push("GetAllUsers".to_owned());
            },
        }
        assert(strings_view(r@) =~= instruction_fields(self@));
        r
    }

    /// The instruction that a tag and fields stand for.
    pub fn from_fields(f: &Vec<String>) -> (r: Result<Instruction, WireError>)
        ensures
            match parse_instruction(strings_view(f@)) {
                Some(v) => r is Ok && r->Ok_0@ == v,
                None => r is Err,
            },
    {
        let ghost fv = strings_view(f@);
        let n = f.len();
        if n == 0 {
            return Err(WireError::MalformedMessage);
        }
        assert(fv[0] == f@[0]@);
        if n == 3 && f[0] == "AddPhoneNumber".to_owned() {
            assert(fv[1] == f@[1]@ && fv[2] == f@[2]@);
            Ok(Instruction::AddPhoneNumber { key: f[1].clone(), number: f[2].clone() })
        } else if n == 2 && f[0] == "DeleteUser".to_owned() {
            assert(fv[1] == f@[1]@);
            Ok(Instruction::DeleteUser { key: f[1].clone() })
        } else if n == 3 && f[0] == "EditNumber".to_owned() {
            assert(fv[1] == f@[1]@ && fv[2] == f@[2]@);
            Ok(Instruction::EditNumber { key: f[1].clone(), number: f[2].clone() })
        } else if n == 1 && f[0] == "GetAllUsers".to_owned() {
            Ok(Instruction::GetAllUsers)
        } else {
            Err(WireError::MalformedMessage)
        }
    }

    /// The datagram payload that carries the instruction.
    pub fn encode(&self) -> (r: Vec<u8>)
        ensures
            r@ == json_array_of(instruction_fields(self@)),
    {
        write_json_array(&self.to_fields())
    }

    /// Reads an instruction from a datagram payload.
    pub fn decode(bytes: &[u8]) -> (r: Result<Instruction, WireError>)
        ensures
            match decode_instruction_spec(bytes@) {
                Some(v) => r is Ok && r->Ok_0@ == v,
                None => r is Err,
            },
    {
        match read_json_array(bytes) {
            Ok(f) => Instruction::from_fields(&f),
            Err(_) => Err(WireError::MalformedMessage),
        }
    }
}

impl Response {
    /// The tag of the response followed by its fields; the pairs of
    /// `AllUsers` are laid out name, number, name, number, ...
    pub fn to_fields(&self) -> (r: Vec<String>)
        ensures
            strings_view(r@) == response_fields(self@),
    {
        let mut r: Vec<String> = Vec::new();
        match self {
            Response::Fail { message } => {
                r.push("Fail".to_owned());
                r.push(message.clone());
            },
            Response::Number { number } => {
                r.push("Number".to_owned());
                r.push(number.clone());
            },
            Response::AllUsers(pairs) => {
                r.push("AllUsers".to_owned());
                let ghost p = pairs@.map_values(|q: (String, String)| pair_view(q));
                let mut k: usize = 0;
                while k < pairs.len()
                    invariant
                        k <= pairs@.len(),
                        p == pairs@.map_values(|q: (String, String)| pair_view(q)),
                        strings_view(r@) =~= seq!["AllUsers"@] + flatten_pairs(p.take(k as int)),
                    decreases pairs@.len() - k,
                {
                    let ghost before = strings_view(r@);
                    r.push(pairs[k].0.clone());
                    r.push(pairs[k].1.clone());
                    assert(strings_view(r@) =~= before.push(pairs@[k as int].0@).push(
                        pairs@[k as int].1@,
                    ));
                    assert(p[k as int] == pair_view(pairs@[k as int]));
                    k = k + 1;
                    assert(flatten_pairs(p.take(k as int)) =~= flatten_pairs(p.take(k - 1)).push(
                        p[k - 1].0,
                    ).push(p[k - 1].1));
                }
                assert(p.take(k as int) =~= p);
            },
            Response::Success => {
                r.push("Success".to_owned());
            },
        }
        assert(strings_view(r@) =~= response_fields(self@));
        r
    }

    /// The response that a tag and fields stand for.
    pub fn from_fields(f: &Vec<String>) -> (r: Result<Response, WireError>)
        ensures
            match parse_response(strings_view(f@)) {
                Some(v) => r is Ok && r->Ok_0@ == v,
                None => r is Err,
            },
    {
        let ghost fv = strings_view(f@);
        let n = f.len();
        if n == 0 {
            return Err(WireError::MalformedMessage);
        }
        assert(fv[0] == f@[0]@);
        if n == 2 && f[0] == "Fail".to_owned() {
            assert(fv[1] == f@[1]@);
            Ok(Response::Fail { message: f[1].clone() })
        } else if n == 2 && f[0] == "Number".to_owned() {
            assert(fv[1] == f@[1]@);
            Ok(Response::Number { number: f[1].clone() })
        } else if f[0] == "AllUsers".to_owned() && (n - 1) % 2 == 0 {
            let ghost rest = fv.drop_first();
            let mut pairs: Vec<(String, String)> = Vec::new();
            let mut k: usize = 0;
            while k < (n - 1) / 2
                invariant
                    n == f@.len(),
                    fv == strings_view(f@),
                    rest == fv.drop_first(),
                    k <= (n - 1) / 2,
                    pairs@.map_values(|q: (String, String)| pair_view(q)) =~= pairs_of(rest).take(
                        k as int,
                    ),
                decreases (n - 1) / 2 - k,
            {
                assert(rest[2 * k as int] == f@[2 * k + 1]@);
                assert(rest[2 * k as int + 1] == f@[2 * k + 2]@);
                let ghost before = pairs@.map_values(|q: (String, String)| pair_view(q));
                pairs.push((f[2 * k + 1].clone(), f[2 * k + 2].clone()));
                assert(pairs@.map_values(|q: (String, String)| pair_view(q)) =~= before.push(
                    (rest[2 * k as int], rest[2 * k as int + 1]),
                ));
                assert(pairs_of(rest)[k as int] == (rest[2 * k as int], rest[2 * k as int + 1]));
                k = k + 1;
            }
            assert(pairs_of(rest).take(k as int) =~= pairs_of(rest));
            Ok(Response::AllUsers(pairs))
        } else if n == 1 && f[0] == "Success".to_owned() {
            Ok(Response::Success)
        } else {
            Err(WireError::MalformedMessage)
        }
    }

    /// The datagram payload that carries the response.
    pub fn encode(&self) -> (r: Vec<u8>)
        ensures
            r@ == json_array_of(response_fields(self@)),
    {
        write_json_array(&self.to_fields())
    }

    /// Reads a response from a datagram payload.
    pub fn decode(bytes: &[u8]) -> (r: Result<Response, WireError>)
        ensures
            match decode_response_spec(bytes@) {
                Some(v) => r is Ok && r->Ok_0@ == v,
                None => r is Err,
            },
    {
        match read_json_array(bytes) {
            Ok(f) => Response::from_fields(&f),
            Err(_) => Err(WireError::MalformedMessage),
        }
    }
}

} // verus!
