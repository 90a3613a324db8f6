//! The English BIP39 word list, stored as packed integers.
//!
//! Every word of the list has between three and eight lower-case ASCII letters, so a
//! word fits in a `u64`: its bytes from the most significant end, padded with zero
//! bytes. Packed that way, integer order is dictionary order, and the list is strictly
//! increasing, which is what makes the lookup by word a binary search and the
//! mapping between words and positions one-to-one.
//!
//! The list is cut into 8 blocks of 256 entries; block `b` holds the positions
//! `256 * b .. 256 * (b + 1)`.
use vstd::prelude::*;

verus! {

/// Number of words in the list.
pub const WORD_COUNT: usize = 2048;

/// Number of entries in one block of the table.
pub const BLOCK_LEN: usize = 256;

/// Positions 0 to 255: `abandon` to `cable`.
const CODES_0: [u64; 256] = [
    0x6162616e646f6e00,  // abandon
    0x6162696c69747900,  // ability
    0x61626c6500000000,  // able
    0x61626f7574000000,  // about
    0x61626f7665000000,  // above
    0x616273656e740000,  // absent
    0x6162736f72620000,  // absorb
    0x6162737472616374,  // abstract
    0x6162737572640000,  // absurd
    0x6162757365000000,  // abuse
    0x6163636573730000,  // access
    0x6163636964656e74,  // accident
    0x6163636f756e7400,  // account
    0x6163637573650000,  // accuse
    0x6163686965766500,  // achieve
    0x6163696400000000,  // acid
    0x61636f7573746963,  // acoustic
    0x6163717569726500,  // acquire
    0x6163726f73730000,  // across
    0x6163740000000000,  // act
    0x616374696f6e0000,  // action
    0x6163746f72000000,  // actor
    0x6163747265737300,  // actress
    0x61637475616c0000,  // actual
    0x6164617074000000,  // adapt
    0x6164640000000000,  // add
    0x6164646963740000,  // addict
    0x6164647265737300,  // address
    0x61646a7573740000,  // adjust
    0x61646d6974000000,  // admit
    0x6164756c74000000,  // adult
    0x616476616e636500,  // advance
    0x6164766963650000,  // advice
    0x6165726f62696300,  // aerobic
    0x6166666169720000,  // affair
    0x6166666f72640000,  // afford
    0x6166726169640000,  // afraid
    0x616761696e000000,  // again
    0x6167650000000000,  // age
    0x6167656e74000000,  // agent
    0x6167726565000000,  // agree
    0x6168656164000000,  // ahead
    0x61696d0000000000,  // aim
    0x6169720000000000,  // air
    0x616972706f727400,  // airport
    0x6169736c65000000,  // aisle
    0x616c61726d000000,  // alarm
    0x616c62756d000000,  // album
    0x616c636f686f6c00,  // alcohol
    0x616c657274000000,  // alert
    0x616c69656e000000,  // alien
    0x616c6c0000000000,  // all
    0x616c6c6579000000,  // alley
    0x616c6c6f77000000,  // allow
    0x616c6d6f73740000,  // almost
    0x616c6f6e65000000,  // alone
    0x616c706861000000,  // alpha
    0x616c726561647900,  // already
    0x616c736f00000000,  // also
    0x616c746572000000,  // alter
    0x616c776179730000,  // always
    0x616d617465757200,  // amateur
    0x616d617a696e6700,  // amazing
    0x616d6f6e67000000,  // among
    0x616d6f756e740000,  // amount
    0x616d757365640000,  // amused
    0x616e616c79737400,  // analyst
    0x616e63686f720000,  // anchor
    0x616e6369656e7400,  // ancient
    0x616e676572000000,  // anger
    0x616e676c65000000,  // angle
    0x616e677279000000,  // angry
    0x616e696d616c0000,  // animal
    0x616e6b6c65000000,  // ankle
    0x616e6e6f756e6365,  // announce
    0x616e6e75616c0000,  // annual
    0x616e6f7468657200,  // another
    0x616e737765720000,  // answer
    0x616e74656e6e6100,  // antenna
    0x616e746971756500,  // antique
    0x616e786965747900,  // anxiety
    0x616e790000000000,  // any
    0x6170617274000000,  // apart
    0x61706f6c6f677900,  // apology
    0x6170706561720000,  // appear
    0x6170706c65000000,  // apple
    0x617070726f766500,  // approve
    0x617072696c000000,  // april
    0x6172636800000000,  // arch
    0x6172637469630000,  // arctic
    0x6172656100000000,  // area
    0x6172656e61000000,  // arena
    0x6172677565000000,  // argue
    0x61726d0000000000,  // arm
    0x61726d6564000000,  // armed
    0x61726d6f72000000,  // armor
    0x61726d7900000000,  // army
    0x61726f756e640000,  // around
    0x617272616e676500,  // arrange
    0x6172726573740000,  // arrest
    0x6172726976650000,  // arrive
    0x6172726f77000000,  // arrow
    0x6172740000000000,  // art
    0x6172746566616374,  // artefact
    0x6172746973740000,  // artist
    0x617274776f726b00,  // artwork
    0x61736b0000000000,  // ask
    0x6173706563740000,  // aspect
    0x61737361756c7400,  // assault
    0x6173736574000000,  // asset
    0x6173736973740000,  // assist
    0x617373756d650000,  // assume
    0x617374686d610000,  // asthma
    0x6174686c65746500,  // athlete
    0x61746f6d00000000,  // atom
    0x61747461636b0000,  // attack
    0x617474656e640000,  // attend
    0x6174746974756465,  // attitude
    0x6174747261637400,  // attract
    0x61756374696f6e00,  // auction
    0x6175646974000000,  // audit
    0x6175677573740000,  // august
    0x61756e7400000000,  // aunt
    0x617574686f720000,  // author
    0x6175746f00000000,  // auto
    0x617574756d6e0000,  // autumn
    0x6176657261676500,  // average
    0x61766f6361646f00,  // avocado
    0x61766f6964000000,  // avoid
    0x6177616b65000000,  // awake
    0x6177617265000000,  // aware
    0x6177617900000000,  // away
    0x617765736f6d6500,  // awesome
    0x617766756c000000,  // awful
    0x61776b7761726400,  // awkward
    0x6178697300000000,  // axis
    0x6261627900000000,  // baby
    0x62616368656c6f72,  // bachelor
    0x6261636f6e000000,  // bacon
    0x6261646765000000,  // badge
    0x6261670000000000,  // bag
    0x62616c616e636500,  // balance
    0x62616c636f6e7900,  // balcony
    0x62616c6c00000000,  // ball
    0x62616d626f6f0000,  // bamboo
    0x62616e616e610000,  // banana
    0x62616e6e65720000,  // banner
    0x6261720000000000,  // bar
    0x626172656c790000,  // barely
    0x6261726761696e00,  // bargain
    0x62617272656c0000,  // barrel
    0x6261736500000000,  // base
    0x6261736963000000,  // basic
    0x6261736b65740000,  // basket
    0x626174746c650000,  // battle
    0x6265616368000000,  // beach
    0x6265616e00000000,  // bean
    0x6265617574790000,  // beauty
    0x6265636175736500,  // because
    0x6265636f6d650000,  // become
    0x6265656600000000,  // beef
    0x6265666f72650000,  // before
    0x626567696e000000,  // begin
    0x6265686176650000,  // behave
    0x626568696e640000,  // behind
    0x62656c6965766500,  // believe
    0x62656c6f77000000,  // below
    0x62656c7400000000,  // belt
    0x62656e6368000000,  // bench
    0x62656e6566697400,  // benefit
    0x6265737400000000,  // best
    0x6265747261790000,  // betray
    0x6265747465720000,  // better
    0x6265747765656e00,  // between
    0x6265796f6e640000,  // beyond
    0x62696379636c6500,  // bicycle
    0x6269640000000000,  // bid
    0x62696b6500000000,  // bike
    0x62696e6400000000,  // bind
    0x62696f6c6f677900,  // biology
    0x6269726400000000,  // bird
    0x6269727468000000,  // birth
    0x6269747465720000,  // bitter
    0x626c61636b000000,  // black
    0x626c616465000000,  // blade
    0x626c616d65000000,  // blame
    0x626c616e6b657400,  // blanket
    0x626c617374000000,  // blast
    0x626c65616b000000,  // bleak
    0x626c657373000000,  // bless
    0x626c696e64000000,  // blind
    0x626c6f6f64000000,  // blood
    0x626c6f73736f6d00,  // blossom
    0x626c6f7573650000,  // blouse
    0x626c756500000000,  // blue
    0x626c757200000000,  // blur
    0x626c757368000000,  // blush
    0x626f617264000000,  // board
    0x626f617400000000,  // boat
    0x626f647900000000,  // body
    0x626f696c00000000,  // boil
    0x626f6d6200000000,  // bomb
    0x626f6e6500000000,  // bone
    0x626f6e7573000000,  // bonus
    0x626f6f6b00000000,  // book
    0x626f6f7374000000,  // boost
    0x626f726465720000,  // border
    0x626f72696e670000,  // boring
    0x626f72726f770000,  // borrow
    0x626f737300000000,  // boss
    0x626f74746f6d0000,  // bottom
    0x626f756e63650000,  // bounce
    0x626f780000000000,  // box
    0x626f790000000000,  // boy
    0x627261636b657400,  // bracket
    0x627261696e000000,  // brain
    0x6272616e64000000,  // brand
    0x6272617373000000,  // brass
    0x6272617665000000,  // brave
    0x6272656164000000,  // bread
    0x627265657a650000,  // breeze
    0x627269636b000000,  // brick
    0x6272696467650000,  // bridge
    0x6272696566000000,  // brief
    0x6272696768740000,  // bright
    0x6272696e67000000,  // bring
    0x627269736b000000,  // brisk
    0x62726f63636f6c69,  // broccoli
    0x62726f6b656e0000,  // broken
    0x62726f6e7a650000,  // bronze
    0x62726f6f6d000000,  // broom
    0x62726f7468657200,  // brother
    0x62726f776e000000,  // brown
    0x6272757368000000,  // brush
    0x627562626c650000,  // bubble
    0x6275646479000000,  // buddy
    0x6275646765740000,  // budget
    0x62756666616c6f00,  // buffalo
    0x6275696c64000000,  // build
    0x62756c6200000000,  // bulb
    0x62756c6b00000000,  // bulk
    0x62756c6c65740000,  // bullet
    0x62756e646c650000,  // bundle
    0x62756e6b65720000,  // bunker
    0x62757264656e0000,  // burden
    0x6275726765720000,  // burger
    0x6275727374000000,  // burst
    0x6275730000000000,  // bus
    0x627573696e657373,  // business
    0x6275737900000000,  // busy
    0x6275747465720000,  // butter
    0x6275796572000000,  // buyer
    0x62757a7a00000000,  // buzz
    0x6361626261676500,  // cabbage
    0x636162696e000000,  // cabin
    0x6361626c65000000,  // cable
];

/// Positions 256 to 511: `cactus` to `divide`.
const CODES_1: [u64; 256] = [
    0x6361637475730000,  // cactus
    0x6361676500000000,  // cage
    0x63616b6500000000,  // cake
    0x63616c6c00000000,  // call
    0x63616c6d00000000,  // calm
    0x63616d6572610000,  // camera
    0x63616d7000000000,  // camp
    0x63616e0000000000,  // can
    0x63616e616c000000,  // canal
    0x63616e63656c0000,  // cancel
    0x63616e6479000000,  // candy
    0x63616e6e6f6e0000,  // cannon
    0x63616e6f65000000,  // canoe
    0x63616e7661730000,  // canvas
    0x63616e796f6e0000,  // canyon
    0x63617061626c6500,  // capable
    0x6361706974616c00,  // capital
    0x6361707461696e00,  // captain
    0x6361720000000000,  // car
    0x636172626f6e0000,  // carbon
    0x6361726400000000,  // card
    0x636172676f000000,  // cargo
    0x6361727065740000,  // carpet
    0x6361727279000000,  // carry
    0x6361727400000000,  // cart
    0x6361736500000000,  // case
    0x6361736800000000,  // cash
    0x636173696e6f0000,  // casino
    0x636173746c650000,  // castle
    0x63617375616c0000,  // casual
    0x6361740000000000,  // cat
    0x636174616c6f6700,  // catalog
    0x6361746368000000,  // catch
    0x63617465676f7279,  // category
    0x636174746c650000,  // cattle
    0x6361756768740000,  // caught
    0x6361757365000000,  // cause
    0x63617574696f6e00,  // caution
    0x6361766500000000,  // cave
    0x6365696c696e6700,  // ceiling
    0x63656c6572790000,  // celery
    0x63656d656e740000,  // cement
    0x63656e7375730000,  // census
    0x63656e7475727900,  // century
    0x63657265616c0000,  // cereal
    0x6365727461696e00,  // certain
    0x6368616972000000,  // chair
    0x6368616c6b000000,  // chalk
    0x6368616d70696f6e,  // champion
    0x6368616e67650000,  // change
    0x6368616f73000000,  // chaos
    0x6368617074657200,  // chapter
    0x6368617267650000,  // charge
    0x6368617365000000,  // chase
    0x6368617400000000,  // chat
    0x6368656170000000,  // cheap
    0x636865636b000000,  // check
    0x6368656573650000,  // cheese
    0x6368656600000000,  // chef
    0x6368657272790000,  // cherry
    0x6368657374000000,  // chest
    0x636869636b656e00,  // chicken
    0x6368696566000000,  // chief
    0x6368696c64000000,  // child
    0x6368696d6e657900,  // chimney
    0x63686f6963650000,  // choice
    0x63686f6f73650000,  // choose
    0x6368726f6e696300,  // chronic
    0x636875636b6c6500,  // chuckle
    0x6368756e6b000000,  // chunk
    0x636875726e000000,  // churn
    0x6369676172000000,  // cigar
    0x63696e6e616d6f6e,  // cinnamon
    0x636972636c650000,  // circle
    0x636974697a656e00,  // citizen
    0x6369747900000000,  // city
    0x636976696c000000,  // civil
    0x636c61696d000000,  // claim
    0x636c617000000000,  // clap
    0x636c617269667900,  // clarify
    0x636c617700000000,  // claw
    0x636c617900000000,  // clay
    0x636c65616e000000,  // clean
    0x636c65726b000000,  // clerk
    0x636c657665720000,  // clever
    0x636c69636b000000,  // click
    0x636c69656e740000,  // client
    0x636c696666000000,  // cliff
    0x636c696d62000000,  // climb
    0x636c696e69630000,  // clinic
    0x636c697000000000,  // clip
    0x636c6f636b000000,  // clock
    0x636c6f6700000000,  // clog
    0x636c6f7365000000,  // close
    0x636c6f7468000000,  // cloth
    0x636c6f7564000000,  // cloud
    0x636c6f776e000000,  // clown
    0x636c756200000000,  // club
    0x636c756d70000000,  // clump
    0x636c757374657200,  // cluster
    0x636c757463680000,  // clutch
    0x636f616368000000,  // coach
    0x636f617374000000,  // coast
    0x636f636f6e757400,  // coconut
    0x636f646500000000,  // code
    0x636f666665650000,  // coffee
    0x636f696c00000000,  // coil
    0x636f696e00000000,  // coin
    0x636f6c6c65637400,  // collect
    0x636f6c6f72000000,  // color
    0x636f6c756d6e0000,  // column
    0x636f6d62696e6500,  // combine
    0x636f6d6500000000,  // come
    0x636f6d666f727400,  // comfort
    0x636f6d6963000000,  // comic
    0x636f6d6d6f6e0000,  // common
    0x636f6d70616e7900,  // company
    0x636f6e6365727400,  // concert
    0x636f6e6475637400,  // conduct
    0x636f6e6669726d00,  // confirm
    0x636f6e6772657373,  // congress
    0x636f6e6e65637400,  // connect
    0x636f6e7369646572,  // consider
    0x636f6e74726f6c00,  // control
    0x636f6e76696e6365,  // convince
    0x636f6f6b00000000,  // cook
    0x636f6f6c00000000,  // cool
    0x636f707065720000,  // copper
    0x636f707900000000,  // copy
    0x636f72616c000000,  // coral
    0x636f726500000000,  // core
    0x636f726e00000000,  // corn
    0x636f727265637400,  // correct
    0x636f737400000000,  // cost
    0x636f74746f6e0000,  // cotton
    0x636f756368000000,  // couch
    0x636f756e74727900,  // country
    0x636f75706c650000,  // couple
    0x636f757273650000,  // course
    0x636f7573696e0000,  // cousin
    0x636f766572000000,  // cover
    0x636f796f74650000,  // coyote
    0x637261636b000000,  // crack
    0x637261646c650000,  // cradle
    0x6372616674000000,  // craft
    0x6372616d00000000,  // cram
    0x6372616e65000000,  // crane
    0x6372617368000000,  // crash
    0x6372617465720000,  // crater
    0x637261776c000000,  // crawl
    0x6372617a79000000,  // crazy
    0x637265616d000000,  // cream
    0x6372656469740000,  // credit
    0x637265656b000000,  // creek
    0x6372657700000000,  // crew
    0x637269636b657400,  // cricket
    0x6372696d65000000,  // crime
    0x6372697370000000,  // crisp
    0x6372697469630000,  // critic
    0x63726f7000000000,  // crop
    0x63726f7373000000,  // cross
    0x63726f7563680000,  // crouch
    0x63726f7764000000,  // crowd
    0x6372756369616c00,  // crucial
    0x637275656c000000,  // cruel
    0x6372756973650000,  // cruise
    0x6372756d626c6500,  // crumble
    0x6372756e63680000,  // crunch
    0x6372757368000000,  // crush
    0x6372790000000000,  // cry
    0x6372797374616c00,  // crystal
    0x6375626500000000,  // cube
    0x63756c7475726500,  // culture
    0x6375700000000000,  // cup
    0x637570626f617264,  // cupboard
    0x637572696f757300,  // curious
    0x63757272656e7400,  // current
    0x6375727461696e00,  // curtain
    0x6375727665000000,  // curve
    0x63757368696f6e00,  // cushion
    0x637573746f6d0000,  // custom
    0x6375746500000000,  // cute
    0x6379636c65000000,  // cycle
    0x6461640000000000,  // dad
    0x64616d6167650000,  // damage
    0x64616d7000000000,  // damp
    0x64616e6365000000,  // dance
    0x64616e6765720000,  // danger
    0x646172696e670000,  // daring
    0x6461736800000000,  // dash
    0x6461756768746572,  // daughter
    0x6461776e00000000,  // dawn
    0x6461790000000000,  // day
    0x6465616c00000000,  // deal
    0x6465626174650000,  // debate
    0x6465627269730000,  // debris
    0x6465636164650000,  // decade
    0x646563656d626572,  // december
    0x6465636964650000,  // decide
    0x6465636c696e6500,  // decline
    0x6465636f72617465,  // decorate
    0x6465637265617365,  // decrease
    0x6465657200000000,  // deer
    0x646566656e736500,  // defense
    0x646566696e650000,  // define
    0x6465667900000000,  // defy
    0x6465677265650000,  // degree
    0x64656c6179000000,  // delay
    0x64656c6976657200,  // deliver
    0x64656d616e640000,  // demand
    0x64656d6973650000,  // demise
    0x64656e69616c0000,  // denial
    0x64656e7469737400,  // dentist
    0x64656e7900000000,  // deny
    0x6465706172740000,  // depart
    0x646570656e640000,  // depend
    0x6465706f73697400,  // deposit
    0x6465707468000000,  // depth
    0x6465707574790000,  // deputy
    0x6465726976650000,  // derive
    0x6465736372696265,  // describe
    0x6465736572740000,  // desert
    0x64657369676e0000,  // design
    0x6465736b00000000,  // desk
    0x6465737061697200,  // despair
    0x64657374726f7900,  // destroy
    0x64657461696c0000,  // detail
    0x6465746563740000,  // detect
    0x646576656c6f7000,  // develop
    0x6465766963650000,  // device
    0x6465766f74650000,  // devote
    0x6469616772616d00,  // diagram
    0x6469616c00000000,  // dial
    0x6469616d6f6e6400,  // diamond
    0x6469617279000000,  // diary
    0x6469636500000000,  // dice
    0x64696573656c0000,  // diesel
    0x6469657400000000,  // diet
    0x6469666665720000,  // differ
    0x6469676974616c00,  // digital
    0x6469676e69747900,  // dignity
    0x64696c656d6d6100,  // dilemma
    0x64696e6e65720000,  // dinner
    0x64696e6f73617572,  // dinosaur
    0x6469726563740000,  // direct
    0x6469727400000000,  // dirt
    0x6469736167726565,  // disagree
    0x646973636f766572,  // discover
    0x6469736561736500,  // disease
    0x6469736800000000,  // dish
    0x6469736d69737300,  // dismiss
    0x6469736f72646572,  // disorder
    0x646973706c617900,  // display
    0x64697374616e6365,  // distance
    0x6469766572740000,  // divert
    0x6469766964650000,  // divide
];

/// Positions 512 to 767: `divorce` to `garment`.
const CODES_2: [u64; 256] = [
    0x6469766f72636500,  // divorce
    0x64697a7a79000000,  // dizzy
    0x646f63746f720000,  // doctor
    0x646f63756d656e74,  // document
    0x646f670000000000,  // dog
    0x646f6c6c00000000,  // doll
    0x646f6c7068696e00,  // dolphin
    0x646f6d61696e0000,  // domain
    0x646f6e6174650000,  // donate
    0x646f6e6b65790000,  // donkey
    0x646f6e6f72000000,  // donor
    0x646f6f7200000000,  // door
    0x646f736500000000,  // dose
    0x646f75626c650000,  // double
    0x646f766500000000,  // dove
    0x6472616674000000,  // draft
    0x647261676f6e0000,  // dragon
    0x6472616d61000000,  // drama
    0x6472617374696300,  // drastic
    0x6472617700000000,  // draw
    0x647265616d000000,  // dream
    0x6472657373000000,  // dress
    0x6472696674000000,  // drift
    0x6472696c6c000000,  // drill
    0x6472696e6b000000,  // drink
    0x6472697000000000,  // drip
    0x6472697665000000,  // drive
    0x64726f7000000000,  // drop
    0x6472756d00000000,  // drum
    0x6472790000000000,  // dry
    0x6475636b00000000,  // duck
    0x64756d6200000000,  // dumb
    0x64756e6500000000,  // dune
    0x647572696e670000,  // during
    0x6475737400000000,  // dust
    0x6475746368000000,  // dutch
    0x6475747900000000,  // duty
    0x6477617266000000,  // dwarf
    0x64796e616d696300,  // dynamic
    0x6561676572000000,  // eager
    0x6561676c65000000,  // eagle
    0x6561726c79000000,  // early
    0x6561726e00000000,  // earn
    0x6561727468000000,  // earth
    0x656173696c790000,  // easily
    0x6561737400000000,  // east
    0x6561737900000000,  // easy
    0x6563686f00000000,  // echo
    0x65636f6c6f677900,  // ecology
    0x65636f6e6f6d7900,  // economy
    0x6564676500000000,  // edge
    0x6564697400000000,  // edit
    0x6564756361746500,  // educate
    0x6566666f72740000,  // effort
    0x6567670000000000,  // egg
    0x6569676874000000,  // eight
    0x6569746865720000,  // either
    0x656c626f77000000,  // elbow
    0x656c646572000000,  // elder
    0x656c656374726963,  // electric
    0x656c6567616e7400,  // elegant
    0x656c656d656e7400,  // element
    0x656c657068616e74,  // elephant
    0x656c657661746f72,  // elevator
    0x656c697465000000,  // elite
    0x656c736500000000,  // else
    0x656d6261726b0000,  // embark
    0x656d626f64790000,  // embody
    0x656d627261636500,  // embrace
    0x656d657267650000,  // emerge
    0x656d6f74696f6e00,  // emotion
    0x656d706c6f790000,  // employ
    0x656d706f77657200,  // empower
    0x656d707479000000,  // empty
    0x656e61626c650000,  // enable
    0x656e616374000000,  // enact
    0x656e640000000000,  // end
    0x656e646c65737300,  // endless
    0x656e646f72736500,  // endorse
    0x656e656d79000000,  // enemy
    0x656e657267790000,  // energy
    0x656e666f72636500,  // enforce
    0x656e676167650000,  // engage
    0x656e67696e650000,  // engine
    0x656e68616e636500,  // enhance
    0x656e6a6f79000000,  // enjoy
    0x656e6c6973740000,  // enlist
    0x656e6f7567680000,  // enough
    0x656e726963680000,  // enrich
    0x656e726f6c6c0000,  // enroll
    0x656e737572650000,  // ensure
    0x656e746572000000,  // enter
    0x656e746972650000,  // entire
    0x656e747279000000,  // entry
    0x656e76656c6f7065,  // envelope
    0x657069736f646500,  // episode
    0x657175616c000000,  // equal
    0x6571756970000000,  // equip
    0x6572610000000000,  // era
    0x6572617365000000,  // erase
    0x65726f6465000000,  // erode
    0x65726f73696f6e00,  // erosion
    0x6572726f72000000,  // error
    0x6572757074000000,  // erupt
    0x6573636170650000,  // escape
    0x6573736179000000,  // essay
    0x657373656e636500,  // essence
    0x6573746174650000,  // estate
    0x657465726e616c00,  // eternal
    0x6574686963730000,  // ethics
    0x65766964656e6365,  // evidence
    0x6576696c00000000,  // evil
    0x65766f6b65000000,  // evoke
    0x65766f6c76650000,  // evolve
    0x6578616374000000,  // exact
    0x6578616d706c6500,  // example
    0x6578636573730000,  // excess
    0x65786368616e6765,  // exchange
    0x6578636974650000,  // excite
    0x6578636c75646500,  // exclude
    0x6578637573650000,  // excuse
    0x6578656375746500,  // execute
    0x6578657263697365,  // exercise
    0x6578686175737400,  // exhaust
    0x6578686962697400,  // exhibit
    0x6578696c65000000,  // exile
    0x6578697374000000,  // exist
    0x6578697400000000,  // exit
    0x65786f7469630000,  // exotic
    0x657870616e640000,  // expand
    0x6578706563740000,  // expect
    0x6578706972650000,  // expire
    0x6578706c61696e00,  // explain
    0x6578706f73650000,  // expose
    0x6578707265737300,  // express
    0x657874656e640000,  // extend
    0x6578747261000000,  // extra
    0x6579650000000000,  // eye
    0x65796562726f7700,  // eyebrow
    0x6661627269630000,  // fabric
    0x6661636500000000,  // face
    0x666163756c747900,  // faculty
    0x6661646500000000,  // fade
    0x6661696e74000000,  // faint
    0x6661697468000000,  // faith
    0x66616c6c00000000,  // fall
    0x66616c7365000000,  // false
    0x66616d6500000000,  // fame
    0x66616d696c790000,  // family
    0x66616d6f75730000,  // famous
    0x66616e0000000000,  // fan
    0x66616e6379000000,  // fancy
    0x66616e7461737900,  // fantasy
    0x6661726d00000000,  // farm
    0x66617368696f6e00,  // fashion
    0x6661740000000000,  // fat
    0x666174616c000000,  // fatal
    0x6661746865720000,  // father
    0x6661746967756500,  // fatigue
    0x6661756c74000000,  // fault
    0x6661766f72697465,  // favorite
    0x6665617475726500,  // feature
    0x6665627275617279,  // february
    0x6665646572616c00,  // federal
    0x6665650000000000,  // fee
    0x6665656400000000,  // feed
    0x6665656c00000000,  // feel
    0x66656d616c650000,  // female
    0x66656e6365000000,  // fence
    0x666573746976616c,  // festival
    0x6665746368000000,  // fetch
    0x6665766572000000,  // fever
    0x6665770000000000,  // few
    0x6669626572000000,  // fiber
    0x66696374696f6e00,  // fiction
    0x6669656c64000000,  // field
    0x6669677572650000,  // figure
    0x66696c6500000000,  // file
    0x66696c6d00000000,  // film
    0x66696c7465720000,  // filter
    0x66696e616c000000,  // final
    0x66696e6400000000,  // find
    0x66696e6500000000,  // fine
    0x66696e6765720000,  // finger
    0x66696e6973680000,  // finish
    0x6669726500000000,  // fire
    0x6669726d00000000,  // firm
    0x6669727374000000,  // first
    0x66697363616c0000,  // fiscal
    0x6669736800000000,  // fish
    0x6669740000000000,  // fit
    0x6669746e65737300,  // fitness
    0x6669780000000000,  // fix
    0x666c616700000000,  // flag
    0x666c616d65000000,  // flame
    0x666c617368000000,  // flash
    0x666c617400000000,  // flat
    0x666c61766f720000,  // flavor
    0x666c656500000000,  // flee
    0x666c696768740000,  // flight
    0x666c697000000000,  // flip
    0x666c6f6174000000,  // float
    0x666c6f636b000000,  // flock
    0x666c6f6f72000000,  // floor
    0x666c6f7765720000,  // flower
    0x666c756964000000,  // fluid
    0x666c757368000000,  // flush
    0x666c790000000000,  // fly
    0x666f616d00000000,  // foam
    0x666f637573000000,  // focus
    0x666f670000000000,  // fog
    0x666f696c00000000,  // foil
    0x666f6c6400000000,  // fold
    0x666f6c6c6f770000,  // follow
    0x666f6f6400000000,  // food
    0x666f6f7400000000,  // foot
    0x666f726365000000,  // force
    0x666f726573740000,  // forest
    0x666f726765740000,  // forget
    0x666f726b00000000,  // fork
    0x666f7274756e6500,  // fortune
    0x666f72756d000000,  // forum
    0x666f727761726400,  // forward
    0x666f7373696c0000,  // fossil
    0x666f737465720000,  // foster
    0x666f756e64000000,  // found
    0x666f780000000000,  // fox
    0x66726167696c6500,  // fragile
    0x6672616d65000000,  // frame
    0x6672657175656e74,  // frequent
    0x6672657368000000,  // fresh
    0x667269656e640000,  // friend
    0x6672696e67650000,  // fringe
    0x66726f6700000000,  // frog
    0x66726f6e74000000,  // front
    0x66726f7374000000,  // frost
    0x66726f776e000000,  // frown
    0x66726f7a656e0000,  // frozen
    0x6672756974000000,  // fruit
    0x6675656c00000000,  // fuel
    0x66756e0000000000,  // fun
    0x66756e6e79000000,  // funny
    0x6675726e61636500,  // furnace
    0x6675727900000000,  // fury
    0x6675747572650000,  // future
    0x6761646765740000,  // gadget
    0x6761696e00000000,  // gain
    0x67616c6178790000,  // galaxy
    0x67616c6c65727900,  // gallery
    0x67616d6500000000,  // game
    0x6761700000000000,  // gap
    0x6761726167650000,  // garage
    0x6761726261676500,  // garbage
    0x67617264656e0000,  // garden
    0x6761726c69630000,  // garlic
    0x6761726d656e7400,  // garment
];

/// Positions 768 to 1023: `gas` to `lend`.
const CODES_3: [u64; 256] = [
    0x6761730000000000,  // gas
    0x6761737000000000,  // gasp
    0x6761746500000000,  // gate
    0x6761746865720000,  // gather
    0x6761756765000000,  // gauge
    0x67617a6500000000,  // gaze
    0x67656e6572616c00,  // general
    0x67656e6975730000,  // genius
    0x67656e7265000000,  // genre
    0x67656e746c650000,  // gentle
    0x67656e75696e6500,  // genuine
    0x6765737475726500,  // gesture
    0x67686f7374000000,  // ghost
    0x6769616e74000000,  // giant
    0x6769667400000000,  // gift
    0x676967676c650000,  // giggle
    0x67696e6765720000,  // ginger
    0x6769726166666500,  // giraffe
    0x6769726c00000000,  // girl
    0x6769766500000000,  // give
    0x676c616400000000,  // glad
    0x676c616e63650000,  // glance
    0x676c617265000000,  // glare
    0x676c617373000000,  // glass
    0x676c696465000000,  // glide
    0x676c696d70736500,  // glimpse
    0x676c6f6265000000,  // globe
    0x676c6f6f6d000000,  // gloom
    0x676c6f7279000000,  // glory
    0x676c6f7665000000,  // glove
    0x676c6f7700000000,  // glow
    0x676c756500000000,  // glue
    0x676f617400000000,  // goat
    0x676f646465737300,  // goddess
    0x676f6c6400000000,  // gold
    0x676f6f6400000000,  // good
    0x676f6f7365000000,  // goose
    0x676f72696c6c6100,  // gorilla
    0x676f7370656c0000,  // gospel
    0x676f737369700000,  // gossip
    0x676f7665726e0000,  // govern
    0x676f776e00000000,  // gown
    0x6772616200000000,  // grab
    0x6772616365000000,  // grace
    0x677261696e000000,  // grain
    0x6772616e74000000,  // grant
    0x6772617065000000,  // grape
    0x6772617373000000,  // grass
    0x6772617669747900,  // gravity
    0x6772656174000000,  // great
    0x677265656e000000,  // green
    0x6772696400000000,  // grid
    0x6772696566000000,  // grief
    0x6772697400000000,  // grit
    0x67726f6365727900,  // grocery
    0x67726f7570000000,  // group
    0x67726f7700000000,  // grow
    0x6772756e74000000,  // grunt
    0x6775617264000000,  // guard
    0x6775657373000000,  // guess
    0x6775696465000000,  // guide
    0x6775696c74000000,  // guilt
    0x6775697461720000,  // guitar
    0x67756e0000000000,  // gun
    0x67796d0000000000,  // gym
    0x6861626974000000,  // habit
    0x6861697200000000,  // hair
    0x68616c6600000000,  // half
    0x68616d6d65720000,  // hammer
    0x68616d7374657200,  // hamster
    0x68616e6400000000,  // hand
    0x6861707079000000,  // happy
    0x686172626f720000,  // harbor
    0x6861726400000000,  // hard
    0x6861727368000000,  // harsh
    0x6861727665737400,  // harvest
    0x6861740000000000,  // hat
    0x6861766500000000,  // have
    0x6861776b00000000,  // hawk
    0x68617a6172640000,  // hazard
    0x6865616400000000,  // head
    0x6865616c74680000,  // health
    0x6865617274000000,  // heart
    0x6865617679000000,  // heavy
    0x6865646765686f67,  // hedgehog
    0x6865696768740000,  // height
    0x68656c6c6f000000,  // hello
    0x68656c6d65740000,  // helmet
    0x68656c7000000000,  // help
    0x68656e0000000000,  // hen
    0x6865726f00000000,  // hero
    0x68696464656e0000,  // hidden
    0x6869676800000000,  // high
    0x68696c6c00000000,  // hill
    0x68696e7400000000,  // hint
    0x6869700000000000,  // hip
    0x6869726500000000,  // hire
    0x686973746f727900,  // history
    0x686f626279000000,  // hobby
    0x686f636b65790000,  // hockey
    0x686f6c6400000000,  // hold
    0x686f6c6500000000,  // hole
    0x686f6c6964617900,  // holiday
    0x686f6c6c6f770000,  // hollow
    0x686f6d6500000000,  // home
    0x686f6e6579000000,  // honey
    0x686f6f6400000000,  // hood
    0x686f706500000000,  // hope
    0x686f726e00000000,  // horn
    0x686f72726f720000,  // horror
    0x686f727365000000,  // horse
    0x686f73706974616c,  // hospital
    0x686f737400000000,  // host
    0x686f74656c000000,  // hotel
    0x686f757200000000,  // hour
    0x686f766572000000,  // hover
    0x6875620000000000,  // hub
    0x6875676500000000,  // huge
    0x68756d616e000000,  // human
    0x68756d626c650000,  // humble
    0x68756d6f72000000,  // humor
    0x68756e6472656400,  // hundred
    0x68756e6772790000,  // hungry
    0x68756e7400000000,  // hunt
    0x687572646c650000,  // hurdle
    0x6875727279000000,  // hurry
    0x6875727400000000,  // hurt
    0x68757362616e6400,  // husband
    0x6879627269640000,  // hybrid
    0x6963650000000000,  // ice
    0x69636f6e00000000,  // icon
    0x6964656100000000,  // idea
    0x6964656e74696679,  // identify
    0x69646c6500000000,  // idle
    0x69676e6f72650000,  // ignore
    0x696c6c0000000000,  // ill
    0x696c6c6567616c00,  // illegal
    0x696c6c6e65737300,  // illness
    0x696d616765000000,  // image
    0x696d697461746500,  // imitate
    0x696d6d656e736500,  // immense
    0x696d6d756e650000,  // immune
    0x696d706163740000,  // impact
    0x696d706f73650000,  // impose
    0x696d70726f766500,  // improve
    0x696d70756c736500,  // impulse
    0x696e636800000000,  // inch
    0x696e636c75646500,  // include
    0x696e636f6d650000,  // income
    0x696e637265617365,  // increase
    0x696e646578000000,  // index
    0x696e646963617465,  // indicate
    0x696e646f6f720000,  // indoor
    0x696e647573747279,  // industry
    0x696e66616e740000,  // infant
    0x696e666c69637400,  // inflict
    0x696e666f726d0000,  // inform
    0x696e68616c650000,  // inhale
    0x696e686572697400,  // inherit
    0x696e697469616c00,  // initial
    0x696e6a6563740000,  // inject
    0x696e6a7572790000,  // injury
    0x696e6d6174650000,  // inmate
    0x696e6e6572000000,  // inner
    0x696e6e6f63656e74,  // innocent
    0x696e707574000000,  // input
    0x696e717569727900,  // inquiry
    0x696e73616e650000,  // insane
    0x696e736563740000,  // insect
    0x696e736964650000,  // inside
    0x696e737069726500,  // inspire
    0x696e7374616c6c00,  // install
    0x696e746163740000,  // intact
    0x696e746572657374,  // interest
    0x696e746f00000000,  // into
    0x696e766573740000,  // invest
    0x696e766974650000,  // invite
    0x696e766f6c766500,  // involve
    0x69726f6e00000000,  // iron
    0x69736c616e640000,  // island
    0x69736f6c61746500,  // isolate
    0x6973737565000000,  // issue
    0x6974656d00000000,  // item
    0x69766f7279000000,  // ivory
    0x6a61636b65740000,  // jacket
    0x6a61677561720000,  // jaguar
    0x6a61720000000000,  // jar
    0x6a617a7a00000000,  // jazz
    0x6a65616c6f757300,  // jealous
    0x6a65616e73000000,  // jeans
    0x6a656c6c79000000,  // jelly
    0x6a6577656c000000,  // jewel
    0x6a6f620000000000,  // job
    0x6a6f696e00000000,  // join
    0x6a6f6b6500000000,  // joke
    0x6a6f75726e657900,  // journey
    0x6a6f790000000000,  // joy
    0x6a75646765000000,  // judge
    0x6a75696365000000,  // juice
    0x6a756d7000000000,  // jump
    0x6a756e676c650000,  // jungle
    0x6a756e696f720000,  // junior
    0x6a756e6b00000000,  // junk
    0x6a75737400000000,  // just
    0x6b616e6761726f6f,  // kangaroo
    0x6b65656e00000000,  // keen
    0x6b65657000000000,  // keep
    0x6b65746368757000,  // ketchup
    0x6b65790000000000,  // key
    0x6b69636b00000000,  // kick
    0x6b69640000000000,  // kid
    0x6b69646e65790000,  // kidney
    0x6b696e6400000000,  // kind
    0x6b696e67646f6d00,  // kingdom
    0x6b69737300000000,  // kiss
    0x6b69740000000000,  // kit
    0x6b69746368656e00,  // kitchen
    0x6b69746500000000,  // kite
    0x6b697474656e0000,  // kitten
    0x6b69776900000000,  // kiwi
    0x6b6e656500000000,  // knee
    0x6b6e696665000000,  // knife
    0x6b6e6f636b000000,  // knock
    0x6b6e6f7700000000,  // know
    0x6c61620000000000,  // lab
    0x6c6162656c000000,  // label
    0x6c61626f72000000,  // labor
    0x6c61646465720000,  // ladder
    0x6c61647900000000,  // lady
    0x6c616b6500000000,  // lake
    0x6c616d7000000000,  // lamp
    0x6c616e6775616765,  // language
    0x6c6170746f700000,  // laptop
    0x6c61726765000000,  // large
    0x6c61746572000000,  // later
    0x6c6174696e000000,  // latin
    0x6c61756768000000,  // laugh
    0x6c61756e64727900,  // laundry
    0x6c61766100000000,  // lava
    0x6c61770000000000,  // law
    0x6c61776e00000000,  // lawn
    0x6c61777375697400,  // lawsuit
    0x6c61796572000000,  // layer
    0x6c617a7900000000,  // lazy
    0x6c65616465720000,  // leader
    0x6c65616600000000,  // leaf
    0x6c6561726e000000,  // learn
    0x6c65617665000000,  // leave
    0x6c65637475726500,  // lecture
    0x6c65667400000000,  // left
    0x6c65670000000000,  // leg
    0x6c6567616c000000,  // legal
    0x6c6567656e640000,  // legend
    0x6c65697375726500,  // leisure
    0x6c656d6f6e000000,  // lemon
    0x6c656e6400000000,  // lend
];

/// Positions 1024 to 1279: `length` to `paper`.
const CODES_4: [u64; 256] = [
    0x6c656e6774680000,  // length
    0x6c656e7300000000,  // lens
    0x6c656f7061726400,  // leopard
    0x6c6573736f6e0000,  // lesson
    0x6c65747465720000,  // letter
    0x6c6576656c000000,  // level
    0x6c69617200000000,  // liar
    0x6c69626572747900,  // liberty
    0x6c69627261727900,  // library
    0x6c6963656e736500,  // license
    0x6c69666500000000,  // life
    0x6c69667400000000,  // lift
    0x6c69676874000000,  // light
    0x6c696b6500000000,  // like
    0x6c696d6200000000,  // limb
    0x6c696d6974000000,  // limit
    0x6c696e6b00000000,  // link
    0x6c696f6e00000000,  // lion
    0x6c69717569640000,  // liquid
    0x6c69737400000000,  // list
    0x6c6974746c650000,  // little
    0x6c69766500000000,  // live
    0x6c697a6172640000,  // lizard
    0x6c6f616400000000,  // load
    0x6c6f616e00000000,  // loan
    0x6c6f627374657200,  // lobster
    0x6c6f63616c000000,  // local
    0x6c6f636b00000000,  // lock
    0x6c6f676963000000,  // logic
    0x6c6f6e656c790000,  // lonely
    0x6c6f6e6700000000,  // long
    0x6c6f6f7000000000,  // loop
    0x6c6f747465727900,  // lottery
    0x6c6f756400000000,  // loud
    0x6c6f756e67650000,  // lounge
    0x6c6f766500000000,  // love
    0x6c6f79616c000000,  // loyal
    0x6c75636b79000000,  // lucky
    0x6c75676761676500,  // luggage
    0x6c756d6265720000,  // lumber
    0x6c756e6172000000,  // lunar
    0x6c756e6368000000,  // lunch
    0x6c75787572790000,  // luxury
    0x6c79726963730000,  // lyrics
    0x6d616368696e6500,  // machine
    0x6d61640000000000,  // mad
    0x6d61676963000000,  // magic
    0x6d61676e65740000,  // magnet
    0x6d61696400000000,  // maid
    0x6d61696c00000000,  // mail
    0x6d61696e00000000,  // main
    0x6d616a6f72000000,  // major
    0x6d616b6500000000,  // make
    0x6d616d6d616c0000,  // mammal
    0x6d616e0000000000,  // man
    0x6d616e6167650000,  // manage
    0x6d616e6461746500,  // mandate
    0x6d616e676f000000,  // mango
    0x6d616e73696f6e00,  // mansion
    0x6d616e75616c0000,  // manual
    0x6d61706c65000000,  // maple
    0x6d6172626c650000,  // marble
    0x6d61726368000000,  // march
    0x6d617267696e0000,  // margin
    0x6d6172696e650000,  // marine
    0x6d61726b65740000,  // market
    0x6d61727269616765,  // marriage
    0x6d61736b00000000,  // mask
    0x6d61737300000000,  // mass
    0x6d61737465720000,  // master
    0x6d61746368000000,  // match
    0x6d6174657269616c,  // material
    0x6d61746800000000,  // math
    0x6d61747269780000,  // matrix
    0x6d61747465720000,  // matter
    0x6d6178696d756d00,  // maximum
    0x6d617a6500000000,  // maze
    0x6d6561646f770000,  // meadow
    0x6d65616e00000000,  // mean
    0x6d65617375726500,  // measure
    0x6d65617400000000,  // meat
    0x6d656368616e6963,  // mechanic
    0x6d6564616c000000,  // medal
    0x6d65646961000000,  // media
    0x6d656c6f64790000,  // melody
    0x6d656c7400000000,  // melt
    0x6d656d6265720000,  // member
    0x6d656d6f72790000,  // memory
    0x6d656e74696f6e00,  // mention
    0x6d656e7500000000,  // menu
    0x6d65726379000000,  // mercy
    0x6d65726765000000,  // merge
    0x6d65726974000000,  // merit
    0x6d65727279000000,  // merry
    0x6d65736800000000,  // mesh
    0x6d65737361676500,  // message
    0x6d6574616c000000,  // metal
    0x6d6574686f640000,  // method
    0x6d6964646c650000,  // middle
    0x6d69646e69676874,  // midnight
    0x6d696c6b00000000,  // milk
    0x6d696c6c696f6e00,  // million
    0x6d696d6963000000,  // mimic
    0x6d696e6400000000,  // mind
    0x6d696e696d756d00,  // minimum
    0x6d696e6f72000000,  // minor
    0x6d696e7574650000,  // minute
    0x6d697261636c6500,  // miracle
    0x6d6972726f720000,  // mirror
    0x6d69736572790000,  // misery
    0x6d69737300000000,  // miss
    0x6d697374616b6500,  // mistake
    0x6d69780000000000,  // mix
    0x6d69786564000000,  // mixed
    0x6d69787475726500,  // mixture
    0x6d6f62696c650000,  // mobile
    0x6d6f64656c000000,  // model
    0x6d6f646966790000,  // modify
    0x6d6f6d0000000000,  // mom
    0x6d6f6d656e740000,  // moment
    0x6d6f6e69746f7200,  // monitor
    0x6d6f6e6b65790000,  // monkey
    0x6d6f6e7374657200,  // monster
    0x6d6f6e7468000000,  // month
    0x6d6f6f6e00000000,  // moon
    0x6d6f72616c000000,  // moral
    0x6d6f726500000000,  // more
    0x6d6f726e696e6700,  // morning
    0x6d6f73717569746f,  // mosquito
    0x6d6f746865720000,  // mother
    0x6d6f74696f6e0000,  // motion
    0x6d6f746f72000000,  // motor
    0x6d6f756e7461696e,  // mountain
    0x6d6f757365000000,  // mouse
    0x6d6f766500000000,  // move
    0x6d6f766965000000,  // movie
    0x6d75636800000000,  // much
    0x6d756666696e0000,  // muffin
    0x6d756c6500000000,  // mule
    0x6d756c7469706c79,  // multiply
    0x6d7573636c650000,  // muscle
    0x6d757365756d0000,  // museum
    0x6d757368726f6f6d,  // mushroom
    0x6d75736963000000,  // music
    0x6d75737400000000,  // must
    0x6d757475616c0000,  // mutual
    0x6d7973656c660000,  // myself
    0x6d79737465727900,  // mystery
    0x6d79746800000000,  // myth
    0x6e61697665000000,  // naive
    0x6e616d6500000000,  // name
    0x6e61706b696e0000,  // napkin
    0x6e6172726f770000,  // narrow
    0x6e61737479000000,  // nasty
    0x6e6174696f6e0000,  // nation
    0x6e61747572650000,  // nature
    0x6e65617200000000,  // near
    0x6e65636b00000000,  // neck
    0x6e65656400000000,  // need
    0x6e65676174697665,  // negative
    0x6e65676c65637400,  // neglect
    0x6e65697468657200,  // neither
    0x6e65706865770000,  // nephew
    0x6e65727665000000,  // nerve
    0x6e65737400000000,  // nest
    0x6e65740000000000,  // net
    0x6e6574776f726b00,  // network
    0x6e65757472616c00,  // neutral
    0x6e65766572000000,  // never
    0x6e65777300000000,  // news
    0x6e65787400000000,  // next
    0x6e69636500000000,  // nice
    0x6e69676874000000,  // night
    0x6e6f626c65000000,  // noble
    0x6e6f697365000000,  // noise
    0x6e6f6d696e656500,  // nominee
    0x6e6f6f646c650000,  // noodle
    0x6e6f726d616c0000,  // normal
    0x6e6f727468000000,  // north
    0x6e6f736500000000,  // nose
    0x6e6f7461626c6500,  // notable
    0x6e6f746500000000,  // note
    0x6e6f7468696e6700,  // nothing
    0x6e6f746963650000,  // notice
    0x6e6f76656c000000,  // novel
    0x6e6f770000000000,  // now
    0x6e75636c65617200,  // nuclear
    0x6e756d6265720000,  // number
    0x6e75727365000000,  // nurse
    0x6e75740000000000,  // nut
    0x6f616b0000000000,  // oak
    0x6f62657900000000,  // obey
    0x6f626a6563740000,  // object
    0x6f626c6967650000,  // oblige
    0x6f62736375726500,  // obscure
    0x6f62736572766500,  // observe
    0x6f627461696e0000,  // obtain
    0x6f6276696f757300,  // obvious
    0x6f63637572000000,  // occur
    0x6f6365616e000000,  // ocean
    0x6f63746f62657200,  // october
    0x6f646f7200000000,  // odor
    0x6f66660000000000,  // off
    0x6f66666572000000,  // offer
    0x6f66666963650000,  // office
    0x6f6674656e000000,  // often
    0x6f696c0000000000,  // oil
    0x6f6b617900000000,  // okay
    0x6f6c640000000000,  // old
    0x6f6c697665000000,  // olive
    0x6f6c796d70696300,  // olympic
    0x6f6d697400000000,  // omit
    0x6f6e636500000000,  // once
    0x6f6e650000000000,  // one
    0x6f6e696f6e000000,  // onion
    0x6f6e6c696e650000,  // online
    0x6f6e6c7900000000,  // only
    0x6f70656e00000000,  // open
    0x6f70657261000000,  // opera
    0x6f70696e696f6e00,  // opinion
    0x6f70706f73650000,  // oppose
    0x6f7074696f6e0000,  // option
    0x6f72616e67650000,  // orange
    0x6f72626974000000,  // orbit
    0x6f72636861726400,  // orchard
    0x6f72646572000000,  // order
    0x6f7264696e617279,  // ordinary
    0x6f7267616e000000,  // organ
    0x6f7269656e740000,  // orient
    0x6f726967696e616c,  // original
    0x6f727068616e0000,  // orphan
    0x6f73747269636800,  // ostrich
    0x6f74686572000000,  // other
    0x6f7574646f6f7200,  // outdoor
    0x6f75746572000000,  // outer
    0x6f75747075740000,  // output
    0x6f75747369646500,  // outside
    0x6f76616c00000000,  // oval
    0x6f76656e00000000,  // oven
    0x6f76657200000000,  // over
    0x6f776e0000000000,  // own
    0x6f776e6572000000,  // owner
    0x6f787967656e0000,  // oxygen
    0x6f79737465720000,  // oyster
    0x6f7a6f6e65000000,  // ozone
    0x7061637400000000,  // pact
    0x706164646c650000,  // paddle
    0x7061676500000000,  // page
    0x7061697200000000,  // pair
    0x70616c6163650000,  // palace
    0x70616c6d00000000,  // palm
    0x70616e6461000000,  // panda
    0x70616e656c000000,  // panel
    0x70616e6963000000,  // panic
    0x70616e7468657200,  // panther
    0x7061706572000000,  // paper
];

/// Positions 1280 to 1535: `parade` to `say`.
const CODES_5: [u64; 256] = [
    0x7061726164650000,  // parade
    0x706172656e740000,  // parent
    0x7061726b00000000,  // park
    0x706172726f740000,  // parrot
    0x7061727479000000,  // party
    0x7061737300000000,  // pass
    0x7061746368000000,  // patch
    0x7061746800000000,  // path
    0x70617469656e7400,  // patient
    0x706174726f6c0000,  // patrol
    0x7061747465726e00,  // pattern
    0x7061757365000000,  // pause
    0x7061766500000000,  // pave
    0x7061796d656e7400,  // payment
    0x7065616365000000,  // peace
    0x7065616e75740000,  // peanut
    0x7065617200000000,  // pear
    0x70656173616e7400,  // peasant
    0x70656c6963616e00,  // pelican
    0x70656e0000000000,  // pen
    0x70656e616c747900,  // penalty
    0x70656e63696c0000,  // pencil
    0x70656f706c650000,  // people
    0x7065707065720000,  // pepper
    0x7065726665637400,  // perfect
    0x7065726d69740000,  // permit
    0x706572736f6e0000,  // person
    0x7065740000000000,  // pet
    0x70686f6e65000000,  // phone
    0x70686f746f000000,  // photo
    0x7068726173650000,  // phrase
    0x706879736963616c,  // physical
    0x7069616e6f000000,  // piano
    0x7069636e69630000,  // picnic
    0x7069637475726500,  // picture
    0x7069656365000000,  // piece
    0x7069670000000000,  // pig
    0x706967656f6e0000,  // pigeon
    0x70696c6c00000000,  // pill
    0x70696c6f74000000,  // pilot
    0x70696e6b00000000,  // pink
    0x70696f6e65657200,  // pioneer
    0x7069706500000000,  // pipe
    0x706973746f6c0000,  // pistol
    0x7069746368000000,  // pitch
    0x70697a7a61000000,  // pizza
    0x706c616365000000,  // place
    0x706c616e65740000,  // planet
    0x706c617374696300,  // plastic
    0x706c617465000000,  // plate
    0x706c617900000000,  // play
    0x706c656173650000,  // please
    0x706c656467650000,  // pledge
    0x706c75636b000000,  // pluck
    0x706c756700000000,  // plug
    0x706c756e67650000,  // plunge
    0x706f656d00000000,  // poem
    0x706f657400000000,  // poet
    0x706f696e74000000,  // point
    0x706f6c6172000000,  // polar
    0x706f6c6500000000,  // pole
    0x706f6c6963650000,  // police
    0x706f6e6400000000,  // pond
    0x706f6e7900000000,  // pony
    0x706f6f6c00000000,  // pool
    0x706f70756c617200,  // popular
    0x706f7274696f6e00,  // portion
    0x706f736974696f6e,  // position
    0x706f737369626c65,  // possible
    0x706f737400000000,  // post
    0x706f7461746f0000,  // potato
    0x706f747465727900,  // pottery
    0x706f766572747900,  // poverty
    0x706f776465720000,  // powder
    0x706f776572000000,  // power
    0x7072616374696365,  // practice
    0x7072616973650000,  // praise
    0x7072656469637400,  // predict
    0x7072656665720000,  // prefer
    0x7072657061726500,  // prepare
    0x70726573656e7400,  // present
    0x7072657474790000,  // pretty
    0x70726576656e7400,  // prevent
    0x7072696365000000,  // price
    0x7072696465000000,  // pride
    0x7072696d61727900,  // primary
    0x7072696e74000000,  // print
    0x7072696f72697479,  // priority
    0x707269736f6e0000,  // prison
    0x7072697661746500,  // private
    0x7072697a65000000,  // prize
    0x70726f626c656d00,  // problem
    0x70726f6365737300,  // process
    0x70726f6475636500,  // produce
    0x70726f6669740000,  // profit
    0x70726f6772616d00,  // program
    0x70726f6a65637400,  // project
    0x70726f6d6f746500,  // promote
    0x70726f6f66000000,  // proof
    0x70726f7065727479,  // property
    0x70726f7370657200,  // prosper
    0x70726f7465637400,  // protect
    0x70726f7564000000,  // proud
    0x70726f7669646500,  // provide
    0x7075626c69630000,  // public
    0x70756464696e6700,  // pudding
    0x70756c6c00000000,  // pull
    0x70756c7000000000,  // pulp
    0x70756c7365000000,  // pulse
    0x70756d706b696e00,  // pumpkin
    0x70756e6368000000,  // punch
    0x707570696c000000,  // pupil
    0x7075707079000000,  // puppy
    0x7075726368617365,  // purchase
    0x7075726974790000,  // purity
    0x707572706f736500,  // purpose
    0x7075727365000000,  // purse
    0x7075736800000000,  // push
    0x7075740000000000,  // put
    0x70757a7a6c650000,  // puzzle
    0x707972616d696400,  // pyramid
    0x7175616c69747900,  // quality
    0x7175616e74756d00,  // quantum
    0x7175617274657200,  // quarter
    0x7175657374696f6e,  // question
    0x717569636b000000,  // quick
    0x7175697400000000,  // quit
    0x7175697a00000000,  // quiz
    0x71756f7465000000,  // quote
    0x7261626269740000,  // rabbit
    0x726163636f6f6e00,  // raccoon
    0x7261636500000000,  // race
    0x7261636b00000000,  // rack
    0x7261646172000000,  // radar
    0x726164696f000000,  // radio
    0x7261696c00000000,  // rail
    0x7261696e00000000,  // rain
    0x7261697365000000,  // raise
    0x72616c6c79000000,  // rally
    0x72616d7000000000,  // ramp
    0x72616e6368000000,  // ranch
    0x72616e646f6d0000,  // random
    0x72616e6765000000,  // range
    0x7261706964000000,  // rapid
    0x7261726500000000,  // rare
    0x7261746500000000,  // rate
    0x7261746865720000,  // rather
    0x726176656e000000,  // raven
    0x7261770000000000,  // raw
    0x72617a6f72000000,  // razor
    0x7265616479000000,  // ready
    0x7265616c00000000,  // real
    0x726561736f6e0000,  // reason
    0x726562656c000000,  // rebel
    0x72656275696c6400,  // rebuild
    0x726563616c6c0000,  // recall
    0x7265636569766500,  // receive
    0x7265636970650000,  // recipe
    0x7265636f72640000,  // record
    0x72656379636c6500,  // recycle
    0x7265647563650000,  // reduce
    0x7265666c65637400,  // reflect
    0x7265666f726d0000,  // reform
    0x7265667573650000,  // refuse
    0x726567696f6e0000,  // region
    0x7265677265740000,  // regret
    0x726567756c617200,  // regular
    0x72656a6563740000,  // reject
    0x72656c6178000000,  // relax
    0x72656c6561736500,  // release
    0x72656c6965660000,  // relief
    0x72656c7900000000,  // rely
    0x72656d61696e0000,  // remain
    0x72656d656d626572,  // remember
    0x72656d696e640000,  // remind
    0x72656d6f76650000,  // remove
    0x72656e6465720000,  // render
    0x72656e6577000000,  // renew
    0x72656e7400000000,  // rent
    0x72656f70656e0000,  // reopen
    0x7265706169720000,  // repair
    0x7265706561740000,  // repeat
    0x7265706c61636500,  // replace
    0x7265706f72740000,  // report
    0x7265717569726500,  // require
    0x7265736375650000,  // rescue
    0x726573656d626c65,  // resemble
    0x7265736973740000,  // resist
    0x7265736f75726365,  // resource
    0x726573706f6e7365,  // response
    0x726573756c740000,  // result
    0x7265746972650000,  // retire
    0x7265747265617400,  // retreat
    0x72657475726e0000,  // return
    0x7265756e696f6e00,  // reunion
    0x72657665616c0000,  // reveal
    0x7265766965770000,  // review
    0x7265776172640000,  // reward
    0x72687974686d0000,  // rhythm
    0x7269620000000000,  // rib
    0x726962626f6e0000,  // ribbon
    0x7269636500000000,  // rice
    0x7269636800000000,  // rich
    0x7269646500000000,  // ride
    0x7269646765000000,  // ridge
    0x7269666c65000000,  // rifle
    0x7269676874000000,  // right
    0x7269676964000000,  // rigid
    0x72696e6700000000,  // ring
    0x72696f7400000000,  // riot
    0x726970706c650000,  // ripple
    0x7269736b00000000,  // risk
    0x72697475616c0000,  // ritual
    0x726976616c000000,  // rival
    0x7269766572000000,  // river
    0x726f616400000000,  // road
    0x726f617374000000,  // roast
    0x726f626f74000000,  // robot
    0x726f627573740000,  // robust
    0x726f636b65740000,  // rocket
    0x726f6d616e636500,  // romance
    0x726f6f6600000000,  // roof
    0x726f6f6b69650000,  // rookie
    0x726f6f6d00000000,  // room
    0x726f736500000000,  // rose
    0x726f746174650000,  // rotate
    0x726f756768000000,  // rough
    0x726f756e64000000,  // round
    0x726f757465000000,  // route
    0x726f79616c000000,  // royal
    0x7275626265720000,  // rubber
    0x7275646500000000,  // rude
    0x7275670000000000,  // rug
    0x72756c6500000000,  // rule
    0x72756e0000000000,  // run
    0x72756e7761790000,  // runway
    0x727572616c000000,  // rural
    0x7361640000000000,  // sad
    0x736164646c650000,  // saddle
    0x7361646e65737300,  // sadness
    0x7361666500000000,  // safe
    0x7361696c00000000,  // sail
    0x73616c6164000000,  // salad
    0x73616c6d6f6e0000,  // salmon
    0x73616c6f6e000000,  // salon
    0x73616c7400000000,  // salt
    0x73616c7574650000,  // salute
    0x73616d6500000000,  // same
    0x73616d706c650000,  // sample
    0x73616e6400000000,  // sand
    0x7361746973667900,  // satisfy
    0x7361746f73686900,  // satoshi
    0x7361756365000000,  // sauce
    0x7361757361676500,  // sausage
    0x7361766500000000,  // save
    0x7361790000000000,  // say
];

/// Positions 1536 to 1791: `scale` to `that`.
const CODES_6: [u64; 256] = [
    0x7363616c65000000,  // scale
    0x7363616e00000000,  // scan
    0x7363617265000000,  // scare
    0x7363617474657200,  // scatter
    0x7363656e65000000,  // scene
    0x736368656d650000,  // scheme
    0x7363686f6f6c0000,  // school
    0x736369656e636500,  // science
    0x73636973736f7273,  // scissors
    0x73636f7270696f6e,  // scorpion
    0x73636f7574000000,  // scout
    0x7363726170000000,  // scrap
    0x73637265656e0000,  // screen
    0x7363726970740000,  // script
    0x7363727562000000,  // scrub
    0x7365610000000000,  // sea
    0x7365617263680000,  // search
    0x736561736f6e0000,  // season
    0x7365617400000000,  // seat
    0x7365636f6e640000,  // second
    0x7365637265740000,  // secret
    0x73656374696f6e00,  // section
    0x7365637572697479,  // security
    0x7365656400000000,  // seed
    0x7365656b00000000,  // seek
    0x7365676d656e7400,  // segment
    0x73656c6563740000,  // select
    0x73656c6c00000000,  // sell
    0x73656d696e617200,  // seminar
    0x73656e696f720000,  // senior
    0x73656e7365000000,  // sense
    0x73656e74656e6365,  // sentence
    0x7365726965730000,  // series
    0x7365727669636500,  // service
    0x73657373696f6e00,  // session
    0x736574746c650000,  // settle
    0x7365747570000000,  // setup
    0x736576656e000000,  // seven
    0x736861646f770000,  // shadow
    0x7368616674000000,  // shaft
    0x7368616c6c6f7700,  // shallow
    0x7368617265000000,  // share
    0x7368656400000000,  // shed
    0x7368656c6c000000,  // shell
    0x7368657269666600,  // sheriff
    0x736869656c640000,  // shield
    0x7368696674000000,  // shift
    0x7368696e65000000,  // shine
    0x7368697000000000,  // ship
    0x7368697665720000,  // shiver
    0x73686f636b000000,  // shock
    0x73686f6500000000,  // shoe
    0x73686f6f74000000,  // shoot
    0x73686f7000000000,  // shop
    0x73686f7274000000,  // short
    0x73686f756c646572,  // shoulder
    0x73686f7665000000,  // shove
    0x736872696d700000,  // shrimp
    0x7368727567000000,  // shrug
    0x73687566666c6500,  // shuffle
    0x7368790000000000,  // shy
    0x7369626c696e6700,  // sibling
    0x7369636b00000000,  // sick
    0x7369646500000000,  // side
    0x7369656765000000,  // siege
    0x7369676874000000,  // sight
    0x7369676e00000000,  // sign
    0x73696c656e740000,  // silent
    0x73696c6b00000000,  // silk
    0x73696c6c79000000,  // silly
    0x73696c7665720000,  // silver
    0x73696d696c617200,  // similar
    0x73696d706c650000,  // simple
    0x73696e6365000000,  // since
    0x73696e6700000000,  // sing
    0x736972656e000000,  // siren
    0x7369737465720000,  // sister
    0x7369747561746500,  // situate
    0x7369780000000000,  // six
    0x73697a6500000000,  // size
    0x736b617465000000,  // skate
    0x736b657463680000,  // sketch
    0x736b690000000000,  // ski
    0x736b696c6c000000,  // skill
    0x736b696e00000000,  // skin
    0x736b697274000000,  // skirt
    0x736b756c6c000000,  // skull
    0x736c616200000000,  // slab
    0x736c616d00000000,  // slam
    0x736c656570000000,  // sleep
    0x736c656e64657200,  // slender
    0x736c696365000000,  // slice
    0x736c696465000000,  // slide
    0x736c696768740000,  // slight
    0x736c696d00000000,  // slim
    0x736c6f67616e0000,  // slogan
    0x736c6f7400000000,  // slot
    0x736c6f7700000000,  // slow
    0x736c757368000000,  // slush
    0x736d616c6c000000,  // small
    0x736d617274000000,  // smart
    0x736d696c65000000,  // smile
    0x736d6f6b65000000,  // smoke
    0x736d6f6f74680000,  // smooth
    0x736e61636b000000,  // snack
    0x736e616b65000000,  // snake
    0x736e617000000000,  // snap
    0x736e696666000000,  // sniff
    0x736e6f7700000000,  // snow
    0x736f617000000000,  // soap
    0x736f636365720000,  // soccer
    0x736f6369616c0000,  // social
    0x736f636b00000000,  // sock
    0x736f646100000000,  // soda
    0x736f667400000000,  // soft
    0x736f6c6172000000,  // solar
    0x736f6c6469657200,  // soldier
    0x736f6c6964000000,  // solid
    0x736f6c7574696f6e,  // solution
    0x736f6c7665000000,  // solve
    0x736f6d656f6e6500,  // someone
    0x736f6e6700000000,  // song
    0x736f6f6e00000000,  // soon
    0x736f727279000000,  // sorry
    0x736f727400000000,  // sort
    0x736f756c00000000,  // soul
    0x736f756e64000000,  // sound
    0x736f757000000000,  // soup
    0x736f757263650000,  // source
    0x736f757468000000,  // south
    0x7370616365000000,  // space
    0x7370617265000000,  // spare
    0x7370617469616c00,  // spatial
    0x737061776e000000,  // spawn
    0x737065616b000000,  // speak
    0x7370656369616c00,  // special
    0x7370656564000000,  // speed
    0x7370656c6c000000,  // spell
    0x7370656e64000000,  // spend
    0x7370686572650000,  // sphere
    0x7370696365000000,  // spice
    0x7370696465720000,  // spider
    0x7370696b65000000,  // spike
    0x7370696e00000000,  // spin
    0x7370697269740000,  // spirit
    0x73706c6974000000,  // split
    0x73706f696c000000,  // spoil
    0x73706f6e736f7200,  // sponsor
    0x73706f6f6e000000,  // spoon
    0x73706f7274000000,  // sport
    0x73706f7400000000,  // spot
    0x7370726179000000,  // spray
    0x7370726561640000,  // spread
    0x737072696e670000,  // spring
    0x7370790000000000,  // spy
    0x7371756172650000,  // square
    0x73717565657a6500,  // squeeze
    0x737175697272656c,  // squirrel
    0x737461626c650000,  // stable
    0x7374616469756d00,  // stadium
    0x7374616666000000,  // staff
    0x7374616765000000,  // stage
    0x7374616972730000,  // stairs
    0x7374616d70000000,  // stamp
    0x7374616e64000000,  // stand
    0x7374617274000000,  // start
    0x7374617465000000,  // state
    0x7374617900000000,  // stay
    0x737465616b000000,  // steak
    0x737465656c000000,  // steel
    0x7374656d00000000,  // stem
    0x7374657000000000,  // step
    0x73746572656f0000,  // stereo
    0x737469636b000000,  // stick
    0x7374696c6c000000,  // still
    0x7374696e67000000,  // sting
    0x73746f636b000000,  // stock
    0x73746f6d61636800,  // stomach
    0x73746f6e65000000,  // stone
    0x73746f6f6c000000,  // stool
    0x73746f7279000000,  // story
    0x73746f7665000000,  // stove
    0x7374726174656779,  // strategy
    0x7374726565740000,  // street
    0x737472696b650000,  // strike
    0x7374726f6e670000,  // strong
    0x7374727567676c65,  // struggle
    0x73747564656e7400,  // student
    0x7374756666000000,  // stuff
    0x7374756d626c6500,  // stumble
    0x7374796c65000000,  // style
    0x7375626a65637400,  // subject
    0x7375626d69740000,  // submit
    0x7375627761790000,  // subway
    0x7375636365737300,  // success
    0x7375636800000000,  // such
    0x73756464656e0000,  // sudden
    0x7375666665720000,  // suffer
    0x7375676172000000,  // sugar
    0x7375676765737400,  // suggest
    0x7375697400000000,  // suit
    0x73756d6d65720000,  // summer
    0x73756e0000000000,  // sun
    0x73756e6e79000000,  // sunny
    0x73756e7365740000,  // sunset
    0x7375706572000000,  // super
    0x737570706c790000,  // supply
    0x73757072656d6500,  // supreme
    0x7375726500000000,  // sure
    0x7375726661636500,  // surface
    0x7375726765000000,  // surge
    0x7375727072697365,  // surprise
    0x737572726f756e64,  // surround
    0x7375727665790000,  // survey
    0x7375737065637400,  // suspect
    0x7375737461696e00,  // sustain
    0x7377616c6c6f7700,  // swallow
    0x7377616d70000000,  // swamp
    0x7377617000000000,  // swap
    0x737761726d000000,  // swarm
    0x7377656172000000,  // swear
    0x7377656574000000,  // sweet
    0x7377696674000000,  // swift
    0x7377696d00000000,  // swim
    0x7377696e67000000,  // swing
    0x7377697463680000,  // switch
    0x73776f7264000000,  // sword
    0x73796d626f6c0000,  // symbol
    0x73796d70746f6d00,  // symptom
    0x7379727570000000,  // syrup
    0x73797374656d0000,  // system
    0x7461626c65000000,  // table
    0x7461636b6c650000,  // tackle
    0x7461670000000000,  // tag
    0x7461696c00000000,  // tail
    0x74616c656e740000,  // talent
    0x74616c6b00000000,  // talk
    0x74616e6b00000000,  // tank
    0x7461706500000000,  // tape
    0x7461726765740000,  // target
    0x7461736b00000000,  // task
    0x7461737465000000,  // taste
    0x746174746f6f0000,  // tattoo
    0x7461786900000000,  // taxi
    0x7465616368000000,  // teach
    0x7465616d00000000,  // team
    0x74656c6c00000000,  // tell
    0x74656e0000000000,  // ten
    0x74656e616e740000,  // tenant
    0x74656e6e69730000,  // tennis
    0x74656e7400000000,  // tent
    0x7465726d00000000,  // term
    0x7465737400000000,  // test
    0x7465787400000000,  // text
    0x7468616e6b000000,  // thank
    0x7468617400000000,  // that
];

/// Positions 1792 to 2047: `theme` to `zoo`.
const CODES_7: [u64; 256] = [
    0x7468656d65000000,  // theme
    0x7468656e00000000,  // then
    0x7468656f72790000,  // theory
    0x7468657265000000,  // there
    0x7468657900000000,  // they
    0x7468696e67000000,  // thing
    0x7468697300000000,  // this
    0x74686f7567687400,  // thought
    0x7468726565000000,  // three
    0x7468726976650000,  // thrive
    0x7468726f77000000,  // throw
    0x7468756d62000000,  // thumb
    0x7468756e64657200,  // thunder
    0x7469636b65740000,  // ticket
    0x7469646500000000,  // tide
    0x7469676572000000,  // tiger
    0x74696c7400000000,  // tilt
    0x74696d6265720000,  // timber
    0x74696d6500000000,  // time
    0x74696e7900000000,  // tiny
    0x7469700000000000,  // tip
    0x7469726564000000,  // tired
    0x7469737375650000,  // tissue
    0x7469746c65000000,  // title
    0x746f617374000000,  // toast
    0x746f626163636f00,  // tobacco
    0x746f646179000000,  // today
    0x746f64646c657200,  // toddler
    0x746f650000000000,  // toe
    0x746f676574686572,  // together
    0x746f696c65740000,  // toilet
    0x746f6b656e000000,  // token
    0x746f6d61746f0000,  // tomato
    0x746f6d6f72726f77,  // tomorrow
    0x746f6e6500000000,  // tone
    0x746f6e6775650000,  // tongue
    0x746f6e6967687400,  // tonight
    0x746f6f6c00000000,  // tool
    0x746f6f7468000000,  // tooth
    0x746f700000000000,  // top
    0x746f706963000000,  // topic
    0x746f70706c650000,  // topple
    0x746f726368000000,  // torch
    0x746f726e61646f00,  // tornado
    0x746f72746f697365,  // tortoise
    0x746f737300000000,  // toss
    0x746f74616c000000,  // total
    0x746f757269737400,  // tourist
    0x746f776172640000,  // toward
    0x746f776572000000,  // tower
    0x746f776e00000000,  // town
    0x746f790000000000,  // toy
    0x747261636b000000,  // track
    0x7472616465000000,  // trade
    0x7472616666696300,  // traffic
    0x7472616769630000,  // tragic
    0x747261696e000000,  // train
    0x7472616e73666572,  // transfer
    0x7472617000000000,  // trap
    0x7472617368000000,  // trash
    0x74726176656c0000,  // travel
    0x7472617900000000,  // tray
    0x7472656174000000,  // treat
    0x7472656500000000,  // tree
    0x7472656e64000000,  // trend
    0x747269616c000000,  // trial
    0x7472696265000000,  // tribe
    0x747269636b000000,  // trick
    0x7472696767657200,  // trigger
    0x7472696d00000000,  // trim
    0x7472697000000000,  // trip
    0x74726f7068790000,  // trophy
    0x74726f75626c6500,  // trouble
    0x747275636b000000,  // truck
    0x7472756500000000,  // true
    0x7472756c79000000,  // truly
    0x7472756d70657400,  // trumpet
    0x7472757374000000,  // trust
    0x7472757468000000,  // truth
    0x7472790000000000,  // try
    0x7475626500000000,  // tube
    0x74756974696f6e00,  // tuition
    0x74756d626c650000,  // tumble
    0x74756e6100000000,  // tuna
    0x74756e6e656c0000,  // tunnel
    0x7475726b65790000,  // turkey
    0x7475726e00000000,  // turn
    0x747572746c650000,  // turtle
    0x7477656c76650000,  // twelve
    0x7477656e74790000,  // twenty
    0x7477696365000000,  // twice
    0x7477696e00000000,  // twin
    0x7477697374000000,  // twist
    0x74776f0000000000,  // two
    0x7479706500000000,  // type
    0x7479706963616c00,  // typical
    0x75676c7900000000,  // ugly
    0x756d6272656c6c61,  // umbrella
    0x756e61626c650000,  // unable
    0x756e617761726500,  // unaware
    0x756e636c65000000,  // uncle
    0x756e636f76657200,  // uncover
    0x756e646572000000,  // under
    0x756e646f00000000,  // undo
    0x756e666169720000,  // unfair
    0x756e666f6c640000,  // unfold
    0x756e686170707900,  // unhappy
    0x756e69666f726d00,  // uniform
    0x756e697175650000,  // unique
    0x756e697400000000,  // unit
    0x756e697665727365,  // universe
    0x756e6b6e6f776e00,  // unknown
    0x756e6c6f636b0000,  // unlock
    0x756e74696c000000,  // until
    0x756e757375616c00,  // unusual
    0x756e7665696c0000,  // unveil
    0x7570646174650000,  // update
    0x7570677261646500,  // upgrade
    0x7570686f6c640000,  // uphold
    0x75706f6e00000000,  // upon
    0x7570706572000000,  // upper
    0x7570736574000000,  // upset
    0x757262616e000000,  // urban
    0x7572676500000000,  // urge
    0x7573616765000000,  // usage
    0x7573650000000000,  // use
    0x7573656400000000,  // used
    0x75736566756c0000,  // useful
    0x7573656c65737300,  // useless
    0x757375616c000000,  // usual
    0x7574696c69747900,  // utility
    0x766163616e740000,  // vacant
    0x76616375756d0000,  // vacuum
    0x7661677565000000,  // vague
    0x76616c6964000000,  // valid
    0x76616c6c65790000,  // valley
    0x76616c7665000000,  // valve
    0x76616e0000000000,  // van
    0x76616e6973680000,  // vanish
    0x7661706f72000000,  // vapor
    0x766172696f757300,  // various
    0x7661737400000000,  // vast
    0x7661756c74000000,  // vault
    0x76656869636c6500,  // vehicle
    0x76656c7665740000,  // velvet
    0x76656e646f720000,  // vendor
    0x76656e7475726500,  // venture
    0x76656e7565000000,  // venue
    0x7665726200000000,  // verb
    0x7665726966790000,  // verify
    0x76657273696f6e00,  // version
    0x7665727900000000,  // very
    0x76657373656c0000,  // vessel
    0x7665746572616e00,  // veteran
    0x766961626c650000,  // viable
    0x76696272616e7400,  // vibrant
    0x766963696f757300,  // vicious
    0x766963746f727900,  // victory
    0x766964656f000000,  // video
    0x7669657700000000,  // view
    0x76696c6c61676500,  // village
    0x76696e7461676500,  // vintage
    0x76696f6c696e0000,  // violin
    0x7669727475616c00,  // virtual
    0x7669727573000000,  // virus
    0x7669736100000000,  // visa
    0x7669736974000000,  // visit
    0x76697375616c0000,  // visual
    0x766974616c000000,  // vital
    0x7669766964000000,  // vivid
    0x766f63616c000000,  // vocal
    0x766f696365000000,  // voice
    0x766f696400000000,  // void
    0x766f6c63616e6f00,  // volcano
    0x766f6c756d650000,  // volume
    0x766f746500000000,  // vote
    0x766f796167650000,  // voyage
    0x7761676500000000,  // wage
    0x7761676f6e000000,  // wagon
    0x7761697400000000,  // wait
    0x77616c6b00000000,  // walk
    0x77616c6c00000000,  // wall
    0x77616c6e75740000,  // walnut
    0x77616e7400000000,  // want
    0x7761726661726500,  // warfare
    0x7761726d00000000,  // warm
    0x77617272696f7200,  // warrior
    0x7761736800000000,  // wash
    0x7761737000000000,  // wasp
    0x7761737465000000,  // waste
    0x7761746572000000,  // water
    0x7761766500000000,  // wave
    0x7761790000000000,  // way
    0x7765616c74680000,  // wealth
    0x776561706f6e0000,  // weapon
    0x7765617200000000,  // wear
    0x77656173656c0000,  // weasel
    0x7765617468657200,  // weather
    0x7765620000000000,  // web
    0x77656464696e6700,  // wedding
    0x7765656b656e6400,  // weekend
    0x7765697264000000,  // weird
    0x77656c636f6d6500,  // welcome
    0x7765737400000000,  // west
    0x7765740000000000,  // wet
    0x7768616c65000000,  // whale
    0x7768617400000000,  // what
    0x7768656174000000,  // wheat
    0x776865656c000000,  // wheel
    0x7768656e00000000,  // when
    0x7768657265000000,  // where
    0x7768697000000000,  // whip
    0x7768697370657200,  // whisper
    0x7769646500000000,  // wide
    0x7769647468000000,  // width
    0x7769666500000000,  // wife
    0x77696c6400000000,  // wild
    0x77696c6c00000000,  // will
    0x77696e0000000000,  // win
    0x77696e646f770000,  // window
    0x77696e6500000000,  // wine
    0x77696e6700000000,  // wing
    0x77696e6b00000000,  // wink
    0x77696e6e65720000,  // winner
    0x77696e7465720000,  // winter
    0x7769726500000000,  // wire
    0x776973646f6d0000,  // wisdom
    0x7769736500000000,  // wise
    0x7769736800000000,  // wish
    0x7769746e65737300,  // witness
    0x776f6c6600000000,  // wolf
    0x776f6d616e000000,  // woman
    0x776f6e6465720000,  // wonder
    0x776f6f6400000000,  // wood
    0x776f6f6c00000000,  // wool
    0x776f726400000000,  // word
    0x776f726b00000000,  // work
    0x776f726c64000000,  // world
    0x776f727279000000,  // worry
    0x776f727468000000,  // worth
    0x7772617000000000,  // wrap
    0x777265636b000000,  // wreck
    0x77726573746c6500,  // wrestle
    0x7772697374000000,  // wrist
    0x7772697465000000,  // write
    0x77726f6e67000000,  // wrong
    0x7961726400000000,  // yard
    0x7965617200000000,  // year
    0x79656c6c6f770000,  // yellow
    0x796f750000000000,  // you
    0x796f756e67000000,  // young
    0x796f757468000000,  // youth
    0x7a65627261000000,  // zebra
    0x7a65726f00000000,  // zero
    0x7a6f6e6500000000,  // zone
    0x7a6f6f0000000000,  // zoo
];

/// The packed word at position `i` of the list.
pub closed spec fn word_code(i: int) -> u64 {
    if i < 256 {
        CODES_0[i]
    } else if i < 512 {
        CODES_1[i - 256]
    } else if i < 768 {
        CODES_2[i - 512]
    } else if i < 1024 {
        CODES_3[i - 768]
    } else if i < 1280 {
        CODES_4[i - 1024]
    } else if i < 1536 {
        CODES_5[i - 1280]
    } else if i < 1792 {
        CODES_6[i - 1536]
    } else {
        CODES_7[i - 1792]
    }
}

/// Reads the packed word at position `index`.
pub fn code_at(index: u16) -> (code: u64)
    requires
        index < WORD_COUNT,
    ensures
        code == word_code(index as int),
{
    let offset: usize = index as usize % BLOCK_LEN;
    let block: usize = index as usize / BLOCK_LEN;
    if block == 0 {
        CODES_0[offset]
    } else if block == 1 {
        CODES_1[offset]
    } else if block == 2 {
        CODES_2[offset]
    } else if block == 3 {
        CODES_3[offset]
    } else if block == 4 {
        CODES_4[offset]
    } else if block == 5 {
        CODES_5[offset]
    } else if block == 6 {
        CODES_6[offset]
    } else {
        CODES_7[offset]
    }
}

proof fn lemma_block_0_increasing()
    ensures
        forall|i: int| 0 <= i < 255 ==> CODES_0[i] < #[trigger] CODES_0[i + 1],
{
}

proof fn lemma_block_1_increasing()
    ensures
        forall|i: int| 0 <= i < 255 ==> CODES_1[i] < #[trigger] CODES_1[i + 1],
{
}

proof fn lemma_block_2_increasing()
    ensures
        forall|i: int| 0 <= i < 255 ==> CODES_2[i] < #[trigger] CODES_2[i + 1],
{
}

proof fn lemma_block_3_increasing()
    ensures
        forall|i: int| 0 <= i < 255 ==> CODES_3[i] < #[trigger] CODES_3[i + 1],
{
}

proof fn lemma_block_4_increasing()
    ensures
        forall|i: int| 0 <= i < 255 ==> CODES_4[i] < #[trigger] CODES_4[i + 1],
{
}

proof fn lemma_block_5_increasing()
    ensures
        forall|i: int| 0 <= i < 255 ==> CODES_5[i] < #[trigger] CODES_5[i + 1],
{
}

proof fn lemma_block_6_increasing()
    ensures
        forall|i: int| 0 <= i < 255 ==> CODES_6[i] < #[trigger] CODES_6[i + 1],
{
}

proof fn lemma_block_7_increasing()
    ensures
        forall|i: int| 0 <= i < 255 ==> CODES_7[i] < #[trigger] CODES_7[i + 1],
{
}

/// Each entry of the list is smaller than the one after it.
pub proof fn lemma_next_code_greater(i: int)
    requires
        0 <= i < WORD_COUNT - 1,
    ensures
        word_code(i) < word_code(i + 1),
{
    if i < 256 {
        lemma_block_0_increasing();
        if i < 255 {
            assert(CODES_0[i] < CODES_0[i + 1]);
        }
    } else if i < 512 {
        lemma_block_1_increasing();
        if i < 511 {
            assert(CODES_1[i - 256] < CODES_1[i - 256 + 1]);
        }
    } else if i < 768 {
        lemma_block_2_increasing();
        if i < 767 {
            assert(CODES_2[i - 512] < CODES_2[i - 512 + 1]);
        }
    } else if i < 1024 {
        lemma_block_3_increasing();
        if i < 1023 {
            assert(CODES_3[i - 768] < CODES_3[i - 768 + 1]);
        }
    } else if i < 1280 {
        lemma_block_4_increasing();
        if i < 1279 {
            assert(CODES_4[i - 1024] < CODES_4[i - 1024 + 1]);
        }
    } else if i < 1536 {
        lemma_block_5_increasing();
        if i < 1535 {
            assert(CODES_5[i - 1280] < CODES_5[i - 1280 + 1]);
        }
    } else if i < 1792 {
        lemma_block_6_increasing();
        if i < 1791 {
            assert(CODES_6[i - 1536] < CODES_6[i - 1536 + 1]);
        }
    } else {
        lemma_block_7_increasing();
        assert(CODES_7[i - 1792] < CODES_7[i - 1792 + 1]);
    }
}

/// The list is strictly increasing.
pub proof fn lemma_codes_increasing(i: int, j: int)
    requires
        0 <= i < j < WORD_COUNT,
    ensures
        word_code(i) < word_code(j),
    decreases j - i,
{
    lemma_next_code_greater(j - 1);
    if i < j - 1 {
        lemma_codes_increasing(i, j - 1);
    }
}

} // verus!
