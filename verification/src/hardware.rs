//! The hardware catalog: the chips and carrier boards that a project can be
//! created for, their identifiers, the files that come with them and the
//! tool invocations they stand for.

use crate::assets::{LPF_SUFFIX, ULX3S_LPF, ULX3S_LPF_NAME};
use crate::filesystem::{
    creates_path, join_path, merge_new_paths, path_in, FsAction, FsActionView,
};
use crate::text::{copy_bytes, ends_with, str_eq};
use vstd::prelude::*;
use vstd::utf8::encode_utf8;

verus! {

/// Identifier of the 85k LUT Lattice ECP5.
pub const ECP5_85K_NAME: &'static str = "ecp5-85k";

/// What the targets listing says of the 85k LUT Lattice ECP5.
pub const ECP5_85K_DESCRIPTION: &'static str =
    "The 85k LUT variant of the Lattice ECP5 chip.\nhttps://www.latticesemi.com/Products/FPGAandCPLD/ECP5\n";

/// Synthesis command of yosys for the ECP5 family.
pub const ECP5_SYNTH_COMMAND: &'static str = "synth_ecp5";

/// Place-and-route invocation of nextpnr for the 85k LUT ECP5.
pub const ECP5_85K_PNR_COMMAND: &'static str = "nextpnr-ecp5 --85k";

/// Identifier of the ULX3S.
pub const ULX3S_NAME: &'static str = "ulx3s";

/// What the dev-boards listing says of the ULX3S.
pub const ULX3S_DESCRIPTION: &'static str =
    "The ULX3s dev-board made by Radiona.\nhttps://radiona.org/ulx3s/\n";

/// Name of the directory, inside a project, that holds the resource files.
pub const RESOURCES_DIR: &'static str = "resources";

/// The flag with which nextpnr takes a pin-constraint file.
pub const LPF_FLAG: &'static str = "--lpf";

/// A file that comes with a chip or a board and is copied into every project
/// that uses it.
#[derive(Clone, Debug)]
pub struct Resource {
    pub filename: String,
    pub bytes: &'static [u8],
}

/// The mathematical value of a [`Resource`].
pub struct ResourceView {
    pub filename: Seq<char>,
    pub bytes: Seq<u8>,
}

impl View for Resource {
    type V = ResourceView;

    open spec fn view(&self) -> ResourceView {
        ResourceView { filename: self.filename@, bytes: self.bytes@ }
    }
}

impl DeepView for Resource {
    type V = ResourceView;

    open spec fn deep_view(&self) -> ResourceView {
        self@
    }
}

/// Identifier and description of a chip or a board, for listings and for the
/// choices a command line offers.
#[derive(Clone, Debug)]
pub struct SupportedEntity<'a> {
    pub name: &'a str,
    pub description: &'a str,
}

/// An identifier that names nothing in the catalog.
#[derive(Clone, Debug)]
pub struct StrParseError {
    pub received: String,
}

/// The writes that put each of `resources` into the directory `dir`, in order.
pub open spec fn resource_writes(dir: Seq<char>, resources: Seq<ResourceView>) -> Seq<
    FsActionView,
> {
    Seq::new(
        resources.len(),
        |i: int|
            FsActionView::WriteFile {
                path: path_in(dir, resources[i].filename),
                contents: resources[i].bytes,
            },
    )
}

/// What a chip or a board brings with it.
pub trait ResourceAssociation {
    /// The resources of this component, in the order in which they are written.
    spec fn resources(&self) -> Seq<ResourceView>;

    /// The resources of this component: `None` where it has none, else all of them.
    fn associated_resources(&self) -> (found: Option<Vec<Resource>>)
        ensures
            found is None <==> self.resources().len() == 0,
            found matches Some(list) ==> list.deep_view() == self.resources(),
    ;

    /// Adds to `writes` the writes that put this component's resources into
    /// the directory `dir`, but for those whose file `writes` creates already.
    fn save_resource_to(&self, dir: &str, writes: &mut Vec<FsAction>)
        ensures
            final(writes).deep_view() == merge_new_paths(
                old(writes).deep_view(),
                resource_writes(dir@, self.resources()),
            ),
    {
        let ghost start = writes.deep_view();
        let ghost all = resource_writes(dir@, self.resources());
        match self.associated_resources() {
            None => {},
            Some(list) => {
                proof {
                    assert forall|k: int| 0 <= k < list.len() implies (#[trigger] list@[k])@
                        == self.resources()[k] by {
                        assert(list.deep_view()[k] == list@[k]@);
                    }
                }
                let mut i: usize = 0;
                while i < list.len()
                    invariant
                        i <= list.len(),
                        list.len() == self.resources().len(),
                        forall|k: int|
                            0 <= k < list.len() ==> (#[trigger] list@[k])@ == self.resources()[k],
                        all == resource_writes(dir@, self.resources()),
                        writes.deep_view() == merge_new_paths(start, all.subrange(0, i as int)),
                    decreases list.len() - i,
                {
                    let ghost merged = writes.deep_view();
                    let path = join_path(dir, list[i].filename.as_str());
                    proof {
                        let next = all.subrange(0, i + 1);
                        assert(next.drop_last() =~= all.subrange(0, i as int));
                        assert(next.last() == all[i as int]);
                    }
                    if !creates_path(writes, path.as_str()) {
                        let contents = copy_bytes(list[i].bytes);
                        writes.push(FsAction::WriteFile { path, contents });
                        proof {
                            assert(writes.deep_view() =~= merged.push(all[i as int]));
                        }
                    }
                    i += 1;
                }
            },
        }
        proof {
            assert(all.subrange(0, all.len() as int) =~= all);
        }
    }
}

/// A supported FPGA chip.
#[allow(non_camel_case_types)]
#[derive(Clone, Copy, Debug, PartialEq, Eq, Structural)]
pub enum Target {
    ECP5_85k,
}

impl Target {
    /// Every supported chip, once, in the order of the listings.
    pub open spec fn catalog() -> Seq<Target> {
        seq![Target::ECP5_85k]
    }

    /// The stable name of the chip on the command line and in configuration.
    pub open spec fn identifier(self) -> Seq<char> {
        match self {
            Target::ECP5_85k => ECP5_85K_NAME@,
        }
    }

    /// What the targets listing says of the chip.
    pub open spec fn description_text(self) -> Seq<char> {
        match self {
            Target::ECP5_85k => ECP5_85K_DESCRIPTION@,
        }
    }

    /// The command that synthesizes a design for the chip.
    pub open spec fn synthesis_command(self) -> Seq<char> {
        match self {
            Target::ECP5_85k => ECP5_SYNTH_COMMAND@,
        }
    }

    /// The place-and-route invocation for the chip, without its arguments.
    pub open spec fn place_and_route_command(self) -> Seq<char> {
        match self {
            Target::ECP5_85k => ECP5_85K_PNR_COMMAND@,
        }
    }

    /// The chip that `raw` names, if it names one: an exact, case-sensitive
    /// match with an identifier.
    pub open spec fn parse(raw: Seq<char>) -> Option<Target> {
        if exists|t: Target| t.identifier() == raw {
            Some(choose|t: Target| t.identifier() == raw)
        } else {
            None
        }
    }

    /// Every supported chip, once, in the order of the listings.
    pub fn variants() -> (all: Vec<Target>)
        ensures
            all@ == Target::catalog(),
    {
        let all = vec![Target::ECP5_85k];
        proof {
            assert(all@ =~= Target::catalog());
        }
        all
    }

    /// The chip's identifier.
    pub fn as_ref(&self) -> (name: &'static str)
        ensures
            name@ == self.identifier(),
    {
        match self {
            Target::ECP5_85k => ECP5_85K_NAME,
        }
    }

    /// What the targets listing says of the chip.
    pub fn description(&self) -> (text: &'static str)
        ensures
            text@ == self.description_text(),
    {
        match self {
            Target::ECP5_85k => ECP5_85K_DESCRIPTION,
        }
    }

    /// Identifier and description of the chip.
    pub fn entity(&self) -> (entity: SupportedEntity<'static>)
        ensures
            entity.name@ == self.identifier(),
            entity.description@ == self.description_text(),
    {
        SupportedEntity { name: self.as_ref(), description: self.description() }
    }

    /// The synthesis command for the chip, as a synthesis script invokes it.
    pub fn toolchain_fragment(&self) -> (command: &'static str)
        ensures
            command@ == self.synthesis_command(),
    {
        match self {
            Target::ECP5_85k => ECP5_SYNTH_COMMAND,
        }
    }

    /// The place-and-route invocation for the chip, as a build file starts it.
    pub fn place_and_route_fragment(&self) -> (command: &'static str)
        ensures
            command@ == self.place_and_route_command(),
    {
        match self {
            Target::ECP5_85k => ECP5_85K_PNR_COMMAND,
        }
    }

    /// Reads an identifier: the chip it names, or else an error that carries
    /// the text as it was received.
    pub fn from_str(s: &str) -> (parsed: Result<Target, StrParseError>)
        ensures
            parsed matches Ok(target) ==> Target::parse(s@) == Some(target),
            parsed matches Err(error) ==> Target::parse(s@) is None && error.received@ == s@,
    {
        let all = Target::variants();
        let mut i: usize = 0;
        while i < all.len()
            invariant
                i <= all.len(),
                all@ == Target::catalog(),
                forall|k: int| 0 <= k < i ==> (#[trigger] all@[k]).identifier() != s@,
            decreases all.len() - i,
        {
            let candidate = all[i];
            if str_eq(s, candidate.as_ref()) {
                proof {
                    let chosen = choose|t: Target| t.identifier() == s@;
                    lemma_target_identifier_injective(chosen, candidate);
                }
                return Ok(candidate);
            }
            i += 1;
        }
        proof {
            assert forall|t: Target| t.identifier() != s@ by {
                lemma_target_catalog_complete(t);
                let k = choose|k: int| 0 <= k < all@.len() && all@[k] == t;
                assert(all@[k].identifier() != s@);
            }
        }
        Err(StrParseError { received: s.to_owned() })
    }
}

impl ResourceAssociation for Target {
    open spec fn resources(&self) -> Seq<ResourceView> {
        match self {
            Target::ECP5_85k => Seq::empty(),
        }
    }

    fn associated_resources(&self) -> (found: Option<Vec<Resource>>) {
        match self {
            Target::ECP5_85k => None,
        }
    }
}

impl core::str::FromStr for Target {
    type Err = StrParseError;

    fn from_str(s: &str) -> (parsed: Result<Target, StrParseError>)
        ensures
            parsed matches Ok(target) ==> Target::parse(s@) == Some(target),
            parsed matches Err(error) ==> Target::parse(s@) is None && error.received@ == s@,
    {
        Target::from_str(s)
    }
}

impl AsRef<str> for Target {
    fn as_ref(&self) -> (name: &str)
        ensures
            name@ == self.identifier(),
    {
        Target::as_ref(self)
    }
}

/// Every chip stands in the catalog.
pub proof fn lemma_target_catalog_complete(target: Target)
    ensures
        Target::catalog().contains(target),
{
    match target {
        Target::ECP5_85k => {
            assert(Target::catalog()[0] == Target::ECP5_85k);
        },
    }
}

/// No chip stands in the catalog twice.
pub proof fn lemma_target_catalog_distinct()
    ensures
        Target::catalog().no_duplicates(),
{
}

/// Two chips with the same identifier are the same chip.
pub proof fn lemma_target_identifier_injective(a: Target, b: Target)
    requires
        a.identifier() == b.identifier(),
    ensures
        a == b,
{
}

/// Reading the identifier of a chip gives that chip back.
pub proof fn lemma_target_round_trip(target: Target)
    ensures
        Target::parse(target.identifier()) == Some(target),
{
    let chosen = choose|t: Target| t.identifier() == target.identifier();
    lemma_target_identifier_injective(chosen, target);
}

/// A supported carrier board.
#[derive(Clone, Copy, Debug, PartialEq, Eq, Structural)]
pub enum DevBoard {
    ULX3S,
}

impl DevBoard {
    /// Every supported board, once, in the order of the listings.
    pub open spec fn catalog() -> Seq<DevBoard> {
        seq![DevBoard::ULX3S]
    }

    /// The stable name of the board on the command line and in configuration.
    pub open spec fn identifier(self) -> Seq<char> {
        match self {
            DevBoard::ULX3S => ULX3S_NAME@,
        }
    }

    /// What the dev-boards listing says of the board.
    pub open spec fn description_text(self) -> Seq<char> {
        match self {
            DevBoard::ULX3S => ULX3S_DESCRIPTION@,
        }
    }

    /// File name of the board's pin constraints.
    pub open spec fn constraint_file(self) -> Seq<char> {
        match self {
            DevBoard::ULX3S => ULX3S_LPF_NAME@,
        }
    }

    /// The flag that hands the board's pin constraints, where a project keeps
    /// them, to place-and-route.
    pub open spec fn constraint_flag(self) -> Seq<char> {
        LPF_FLAG@ + " "@ + path_in(RESOURCES_DIR@, self.constraint_file())
    }

    /// The board that `raw` names, if it names one: an exact, case-sensitive
    /// match with an identifier.
    pub open spec fn parse(raw: Seq<char>) -> Option<DevBoard> {
        if exists|b: DevBoard| b.identifier() == raw {
            Some(choose|b: DevBoard| b.identifier() == raw)
        } else {
            None
        }
    }

    /// Every supported board, once, in the order of the listings.
    pub fn variants() -> (all: Vec<DevBoard>)
        ensures
            all@ == DevBoard::catalog(),
    {
        let all = vec![DevBoard::ULX3S];
        proof {
            assert(all@ =~= DevBoard::catalog());
        }
        all
    }

    /// The board's identifier.
    pub fn as_ref(&self) -> (name: &'static str)
        ensures
            name@ == self.identifier(),
    {
        match self {
            DevBoard::ULX3S => ULX3S_NAME,
        }
    }

    /// What the dev-boards listing says of the board.
    pub fn description(&self) -> (text: &'static str)
        ensures
            text@ == self.description_text(),
    {
        match self {
            DevBoard::ULX3S => ULX3S_DESCRIPTION,
        }
    }

    /// Identifier and description of the board.
    pub fn entity(&self) -> (entity: SupportedEntity<'static>)
        ensures
            entity.name@ == self.identifier(),
            entity.description@ == self.description_text(),
    {
        SupportedEntity { name: self.as_ref(), description: self.description() }
    }

    /// File name of the board's pin constraints.
    pub fn constraint_filename(&self) -> (name: &'static str)
        ensures
            name@ == self.constraint_file(),
    {
        match self {
            DevBoard::ULX3S => ULX3S_LPF_NAME,
        }
    }

    /// The flag that hands the board's pin constraints to place-and-route.
    pub fn toolchain_fragment(&self) -> (flag: String)
        ensures
            flag@ == self.constraint_flag(),
    {
        let mut flag = LPF_FLAG.to_owned();
        flag.append(" ");
        let file = join_path(RESOURCES_DIR, self.constraint_filename());
        flag.append(file.as_str());
        proof {
            assert(flag@ =~= self.constraint_flag());
        }
        flag
    }

    /// Reads an identifier: the board it names, or else an error that carries
    /// the text as it was received.
    pub fn from_str(s: &str) -> (parsed: Result<DevBoard, StrParseError>)
        ensures
            parsed matches Ok(board) ==> DevBoard::parse(s@) == Some(board),
            parsed matches Err(error) ==> DevBoard::parse(s@) is None && error.received@ == s@,
    {
        let all = DevBoard::variants();
        let mut i: usize = 0;
        while i < all.len()
            invariant
                i <= all.len(),
                all@ == DevBoard::catalog(),
                forall|k: int| 0 <= k < i ==> (#[trigger] all@[k]).identifier() != s@,
            decreases all.len() - i,
        {
            let candidate = all[i];
            if str_eq(s, candidate.as_ref()) {
                proof {
                    let chosen = choose|b: DevBoard| b.identifier() == s@;
                    lemma_dev_board_identifier_injective(chosen, candidate);
                }
                return Ok(candidate);
            }
            i += 1;
        }
        proof {
            assert forall|b: DevBoard| b.identifier() != s@ by {
                lemma_dev_board_catalog_complete(b);
                let k = choose|k: int| 0 <= k < all@.len() && all@[k] == b;
                assert(all@[k].identifier() != s@);
            }
        }
        Err(StrParseError { received: s.to_owned() })
    }
}

impl ResourceAssociation for DevBoard {
    open spec fn resources(&self) -> Seq<ResourceView> {
        match self {
            DevBoard::ULX3S => seq![
                ResourceView { filename: ULX3S_LPF_NAME@, bytes: encode_utf8(ULX3S_LPF@) },
            ],
        }
    }

    fn associated_resources(&self) -> (found: Option<Vec<Resource>>) {
        match self {
            DevBoard::ULX3S => {
                let list = vec![
                    Resource { filename: ULX3S_LPF_NAME.to_owned(), bytes: ULX3S_LPF.as_bytes() },
                ];
                proof {
                    assert(list.deep_view() =~= self.resources());
                }
                Some(list)
            },
        }
    }
}

impl core::str::FromStr for DevBoard {
    type Err = StrParseError;

    fn from_str(s: &str) -> (parsed: Result<DevBoard, StrParseError>)
        ensures
            parsed matches Ok(board) ==> DevBoard::parse(s@) == Some(board),
            parsed matches Err(error) ==> DevBoard::parse(s@) is None && error.received@ == s@,
    {
        DevBoard::from_str(s)
    }
}

impl AsRef<str> for DevBoard {
    fn as_ref(&self) -> (name: &str)
        ensures
            name@ == self.identifier(),
    {
        DevBoard::as_ref(self)
    }
}

/// Every board stands in the catalog.
pub proof fn lemma_dev_board_catalog_complete(board: DevBoard)
    ensures
        DevBoard::catalog().contains(board),
{
    match board {
        DevBoard::ULX3S => {
            assert(DevBoard::catalog()[0] == DevBoard::ULX3S);
        },
    }
}

/// No board stands in the catalog twice.
pub proof fn lemma_dev_board_catalog_distinct()
    ensures
        DevBoard::catalog().no_duplicates(),
{
}

/// Two boards with the same identifier are the same board.
pub proof fn lemma_dev_board_identifier_injective(a: DevBoard, b: DevBoard)
    requires
        a.identifier() == b.identifier(),
    ensures
        a == b,
{
}

/// Reading the identifier of a board gives that board back.
pub proof fn lemma_dev_board_round_trip(board: DevBoard)
    ensures
        DevBoard::parse(board.identifier()) == Some(board),
{
    let chosen = choose|b: DevBoard| b.identifier() == board.identifier();
    lemma_dev_board_identifier_injective(chosen, board);
}

/// The pin constraints that a board's flag names are among the files that
/// come with the board.
pub proof fn lemma_constraint_file_bundled(board: DevBoard)
    ensures
        exists|i: int|
            0 <= i < board.resources().len() && (#[trigger] board.resources()[i]).filename
                == board.constraint_file(),
{
    match board {
        DevBoard::ULX3S => {
            assert(board.resources()[0].filename == board.constraint_file());
        },
    }
}

/// The listing of the supported chips: one entry for each chip of the
/// catalog, in the catalog's order.
pub fn supported_targets() -> (entities: Vec<SupportedEntity<'static>>)
    ensures
        entities.len() == Target::catalog().len(),
        forall|i: int|
            0 <= i < entities.len() ==> {
                &&& (#[trigger] entities[i]).name@ == Target::catalog()[i].identifier()
                &&& entities[i].description@ == Target::catalog()[i].description_text()
            },
{
    let all = Target::variants();
    let mut entities: Vec<SupportedEntity<'static>> = Vec::new();
    let mut i: usize = 0;
    while i < all.len()
        invariant
            i <= all.len(),
            all@ == Target::catalog(),
            entities.len() == i,
            forall|k: int|
                0 <= k < i ==> {
                    &&& (#[trigger] entities[k]).name@ == Target::catalog()[k].identifier()
                    &&& entities[k].description@ == Target::catalog()[k].description_text()
                },
        decreases all.len() - i,
    {
        entities.push(all[i].entity());
        i += 1;
    }
    entities
}

/// The listing of the supported boards: one entry for each board of the
/// catalog, in the catalog's order.
pub fn supported_dev_boards() -> (entities: Vec<SupportedEntity<'static>>)
    ensures
        entities.len() == DevBoard::catalog().len(),
        forall|i: int|
            0 <= i < entities.len() ==> {
                &&& (#[trigger] entities[i]).name@ == DevBoard::catalog()[i].identifier()
                &&& entities[i].description@ == DevBoard::catalog()[i].description_text()
            },
{
    let all = DevBoard::variants();
    let mut entities: Vec<SupportedEntity<'static>> = Vec::new();
    let mut i: usize = 0;
    while i < all.len()
        invariant
            i <= all.len(),
            all@ == DevBoard::catalog(),
            entities.len() == i,
            forall|k: int|
                0 <= k < i ==> {
                    &&& (#[trigger] entities[k]).name@ == DevBoard::catalog()[k].identifier()
                    &&& entities[k].description@ == DevBoard::catalog()[k].description_text()
                },
        decreases all.len() - i,
    {
        entities.push(all[i].entity());
        i += 1;
    }
    entities
}

/// The identifiers of a listing, in its order: the values that a command
/// line accepts for the component.
pub fn entity_names<'a>(entities: &[SupportedEntity<'a>]) -> (names: Vec<&'a str>)
    ensures
        names.len() == entities.len(),
        forall|i: int| 0 <= i < names.len() ==> (#[trigger] names[i])@ == entities[i].name@,
{
    let mut names: Vec<&'a str> = Vec::new();
    let mut i: usize = 0;
    while i < entities.len()
        invariant
            i <= entities.len(),
            names.len() == i,
            forall|k: int| 0 <= k < i ==> (#[trigger] names[k])@ == entities[k].name@,
        decreases entities.len() - i,
    {
        names.push(entities[i].name);
        i += 1;
    }
    names
}

/// The identifiers that name a chip are those of the catalog, and no others.
pub proof fn lemma_target_accepted_iff_listed(raw: Seq<char>)
    ensures
        Target::parse(raw) is Some <==> exists|i: int|
            0 <= i < Target::catalog().len() && (#[trigger] Target::catalog()[i]).identifier()
                == raw,
{
    if Target::parse(raw) is Some {
        let target = Target::parse(raw)->0;
        lemma_target_catalog_complete(target);
        let i = choose|i: int| 0 <= i < Target::catalog().len() && Target::catalog()[i] == target;
        assert(Target::catalog()[i].identifier() == raw);
    }
}

/// The identifiers that name a board are those of the catalog, and no others.
pub proof fn lemma_dev_board_accepted_iff_listed(raw: Seq<char>)
    ensures
        DevBoard::parse(raw) is Some <==> exists|i: int|
            0 <= i < DevBoard::catalog().len() && (#[trigger] DevBoard::catalog()[i]).identifier()
                == raw,
{
    if DevBoard::parse(raw) is Some {
        let board = DevBoard::parse(raw)->0;
        lemma_dev_board_catalog_complete(board);
        let i = choose|i: int|
            0 <= i < DevBoard::catalog().len() && DevBoard::catalog()[i] == board;
        assert(DevBoard::catalog()[i].identifier() == raw);
    }
}

/// `resource` comes with some chip or board of the catalog.
pub open spec fn bundled(resource: ResourceView) -> bool {
    ||| exists|target: Target, i: int|
        0 <= i < target.resources().len() && #[trigger] target.resources()[i] == resource
    ||| exists|board: DevBoard, i: int|
        0 <= i < board.resources().len() && #[trigger] board.resources()[i] == resource
}

/// Across the catalog a file name stands for one payload.
pub proof fn lemma_bundled_name_determines_payload(a: ResourceView, b: ResourceView)
    requires
        bundled(a),
        bundled(b),
        a.filename == b.filename,
    ensures
        a == b,
{
}

/// Every file that comes with the catalog's hardware is a pin-constraint file.
pub proof fn lemma_bundled_is_constraint_file(resource: ResourceView)
    requires
        bundled(resource),
    ensures
        ends_with(resource.filename, LPF_SUFFIX@),
{
    reveal_strlit("ulx3s_v20.lpf");
    reveal_strlit(".lpf");
    let name = ULX3S_LPF_NAME@;
    assert(name.subrange(name.len() - 4, name.len() as int) =~= LPF_SUFFIX@);
}

/// No chip lacks what a project needs of it: a name, a description, a
/// synthesis command and a place-and-route invocation.
pub proof fn lemma_target_metadata_complete(target: Target)
    ensures
        target.identifier().len() > 0,
        target.description_text().len() > 0,
        target.synthesis_command().len() > 0,
        target.place_and_route_command().len() > 0,
{
    reveal_strlit("ecp5-85k");
    reveal_strlit(
        "The 85k LUT variant of the Lattice ECP5 chip.\nhttps://www.latticesemi.com/Products/FPGAandCPLD/ECP5\n",
    );
    reveal_strlit("synth_ecp5");
    reveal_strlit("nextpnr-ecp5 --85k");
}

/// No board lacks what a project needs of it: a name, a description and a
/// constraint flag that ends in the name of its constraint file.
pub proof fn lemma_dev_board_metadata_complete(board: DevBoard)
    ensures
        board.identifier().len() > 0,
        board.description_text().len() > 0,
        board.constraint_file().len() > 0,
        ends_with(board.constraint_flag(), board.constraint_file()),
{
    reveal_strlit("ulx3s");
    reveal_strlit("The ULX3s dev-board made by Radiona.\nhttps://radiona.org/ulx3s/\n");
    reveal_strlit("ulx3s_v20.lpf");
    let flag = board.constraint_flag();
    let file = board.constraint_file();
    assert(flag.subrange(flag.len() - file.len(), flag.len() as int) =~= file);
}

} // verus!
