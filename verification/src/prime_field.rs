//! The prime modulus of the ElGamal group, and the facts about it that the
//! correctness of decryption rests on.

use crate::natural::decimal_value;
use vstd::arithmetic::div_mod::{
    lemma_fundamental_div_mod_converse, lemma_mul_mod_noop_general, lemma_small_mod,
};
use vstd::arithmetic::mul::{lemma_mul_is_associative, lemma_mul_is_commutative};
use vstd::arithmetic::power::{
    lemma1_pow, lemma_pow0, lemma_pow1, lemma_pow_adds, lemma_pow_mod_noop, lemma_pow_multiplies, pow,
};
use vstd::prelude::*;

verus! {

/// The decimal digits of the group modulus.
pub const PRIME: &'static str = "21888242871839275222246405745257275088696311157297823662689037894645226208583";

/// The group modulus as a number.
pub open spec fn group_prime() -> nat {
    21888242871839275222246405745257275088696311157297823662689037894645226208583nat
}

/// `b^e mod m`, computed by repeated squaring.
pub open spec fn pow_mod_by_squaring(b: nat, e: nat, m: nat) -> nat
    decreases e,
{
    if e == 0 {
        1nat % m
    } else if e % 2 == 0 {
        let h = pow_mod_by_squaring(b, e / 2, m);
        (h * h) % m
    } else {
        let h = pow_mod_by_squaring(b, e / 2, m);
        ((h * h) % m * (b % m)) % m
    }
}

/// Repeated squaring computes `b^e mod m`.
pub proof fn lemma_pow_mod_by_squaring(b: nat, e: nat, m: nat)
    requires
        m > 0,
    ensures
        pow_mod_by_squaring(b, e, m) == pow(b as int, e) % (m as int),
    decreases e,
{
    if e == 0 {
        lemma_pow0(b as int);
    } else {
        let k = e / 2;
        lemma_pow_mod_by_squaring(b, k, m);
        let h = pow_mod_by_squaring(b, k, m);
        let pk = pow(b as int, k);
        lemma_mul_mod_noop_general(pk, pk, m as int);
        lemma_pow_adds(b as int, k, k);
        assert(k + k == 2 * k);
        if e % 2 == 0 {
            assert(e == k + k);
        } else {
            assert(e == (k + k) + 1);
            lemma_pow_adds(b as int, k + k, 1);
            lemma_pow1(b as int);
            lemma_mul_mod_noop_general(pk * pk, b as int, m as int);
            lemma_mul_mod_noop_general(pow(b as int, k + k), b as int, m as int);
        }
    }
}

proof fn lemma_mod_by_quotient(x: nat, q: nat, r: nat, m: nat)
    requires
        x == q * m + r,
        r < m,
    ensures
        x % m == r,
{
    lemma_fundamental_div_mod_converse(x as int, m as int, q as int, r as int);
}

proof fn lemma_square_step(e: nat, h: nat)
    requires
        e > 0,
        e % 2 == 0,
        pow_mod_by_squaring(2, e / 2, group_prime()) == h,
    ensures
        pow_mod_by_squaring(2, e, group_prime()) == (h * h) % group_prime(),
{
}

proof fn lemma_square_double_step(e: nat, h: nat)
    requires
        e % 2 == 1,
        pow_mod_by_squaring(2, e / 2, group_prime()) == h,
    ensures
        pow_mod_by_squaring(2, e, group_prime()) == ((h * h) % group_prime() * 2) % group_prime(),
{
    assert(2nat % group_prime() == 2);
}

proof fn lemma_fermat_steps_0()
    requires
        pow_mod_by_squaring(2, 0nat, group_prime()) == 1nat,
    ensures
        pow_mod_by_squaring(2, 193nat, group_prime()) == 12554203470773361527671578846415332832204710888928069025792nat,
{
    assert(pow_mod_by_squaring(2, 1nat, group_prime()) == 2nat) by {
        lemma_square_double_step(1nat, 1nat);
        lemma_mod_by_quotient(1nat, 0nat, 1nat, group_prime());
        lemma_mod_by_quotient(2nat, 0nat, 2nat, group_prime());
    }
    assert(pow_mod_by_squaring(2, 3nat, group_prime()) == 8nat) by {
        lemma_square_double_step(3nat, 2nat);
        lemma_mod_by_quotient(4nat, 0nat, 4nat, group_prime());
        lemma_mod_by_quotient(8nat, 0nat, 8nat, group_prime());
    }
    assert(pow_mod_by_squaring(2, 6nat, group_prime()) == 64nat) by {
        lemma_square_step(6nat, 8nat);
        lemma_mod_by_quotient(64nat, 0nat, 64nat, group_prime());
    }
    assert(pow_mod_by_squaring(2, 12nat, group_prime()) == 4096nat) by {
        lemma_square_step(12nat, 64nat);
        lemma_mod_by_quotient(4096nat, 0nat, 4096nat, group_prime());
    }
    assert(pow_mod_by_squaring(2, 24nat, group_prime()) == 16777216nat) by {
        lemma_square_step(24nat, 4096nat);
        lemma_mod_by_quotient(16777216nat, 0nat, 16777216nat, group_prime());
    }
    assert(pow_mod_by_squaring(2, 48nat, group_prime()) == 281474976710656nat) by {
        lemma_square_step(48nat, 16777216nat);
        lemma_mod_by_quotient(281474976710656nat, 0nat, 281474976710656nat, group_prime());
    }
    assert(pow_mod_by_squaring(2, 96nat, group_prime()) == 79228162514264337593543950336nat) by {
        lemma_square_step(96nat, 281474976710656nat);
        lemma_mod_by_quotient(79228162514264337593543950336nat, 0nat, 79228162514264337593543950336nat, group_prime());
    }
    assert(pow_mod_by_squaring(2, 193nat, group_prime()) == 12554203470773361527671578846415332832204710888928069025792nat) by {
        lemma_square_double_step(193nat, 79228162514264337593543950336nat);
        lemma_mod_by_quotient(6277101735386680763835789423207666416102355444464034512896nat, 0nat, 6277101735386680763835789423207666416102355444464034512896nat, group_prime());
        lemma_mod_by_quotient(12554203470773361527671578846415332832204710888928069025792nat, 0nat, 12554203470773361527671578846415332832204710888928069025792nat, group_prime());
    }
}

proof fn lemma_fermat_steps_1()
    requires
        pow_mod_by_squaring(2, 193nat, group_prime()) == 12554203470773361527671578846415332832204710888928069025792nat,
    ensures
        pow_mod_by_squaring(2, 49553nat, group_prime()) == 21426823313462460259637163434626310297191497283256812457386002067124618159007nat,
{
    assert(pow_mod_by_squaring(2, 387nat, group_prime()) == 6428283861534216225748007276919627035587323957975245112386805369469041887839nat) by {
        lemma_square_double_step(387nat, 12554203470773361527671578846415332832204710888928069025792nat);
        lemma_mod_by_quotient(157608024785577916849116160400574455220318957081861786671793173616982887085988842445657065019539662563226511961227264nat, 7200579128640401004102311307143702906091nat, 14158263366686745723997206511088451062141817557636534387537921632057134048211nat, group_prime());
        lemma_mod_by_quotient(28316526733373491447994413022176902124283635115273068775075843264114268096422nat, 1nat, 6428283861534216225748007276919627035587323957975245112386805369469041887839nat, group_prime());
    }
    assert(pow_mod_by_squaring(2, 774nat, group_prime()) == 13799895145128649344086328221974352568050289900849273877871738508618008210643nat) by {
        lemma_square_step(774nat, 6428283861534216225748007276919627035587323957975245112386805369469041887839nat);
        lemma_mod_by_quotient(41322833404461254405805882638118438407067114963505338116810624859042260371388759605468617830203444381941526231748395984572555988160042307729573056089921nat, 1887900899419656570150557932876118163042495557246498781912339974474341861666nat, 13799895145128649344086328221974352568050289900849273877871738508618008210643nat, group_prime());
    }
    assert(pow_mod_by_squaring(2, 1548nat, group_prime()) == 6299491196486979624399761438343560689285724973203948534951028441410581170705nat) by {
        lemma_square_step(1548nat, 13799895145128649344086328221974352568050289900849273877871738508618008210643nat);
        lemma_mod_by_quotient(190437106016545265942745261236334543110969781684462875327145711468318818099904753007300766549656129778860582120321186328948775721159291229710162658473449nat, 8700429135933778233433479686779423028392172387335761670324029953874390417768nat, 6299491196486979624399761438343560689285724973203948534951028441410581170705nat, group_prime());
    }
    assert(pow_mod_by_squaring(2, 3097nat, group_prime()) == 21250380497469473169186657738789224406864034074683313712099364806222857485689nat) by {
        lemma_square_double_step(3097nat, 6299491196486979624399761438343560689285724973203948534951028441410581170705nat);
        lemma_mod_by_quotient(39683589334616958129312517085271647496922533936516818243255040944898247515440484653946215717778878665772884475058429972008416215467638939547488350197025nat, 1813009366122879416153976677974785449134526420328747088784155533132660262583nat, 21569311684654374195716531742023249747780172615990568687394201350434041847136nat, group_prime());
        lemma_mod_by_quotient(43138623369308748391433063484046499495560345231981137374788402700868083694272nat, 1nat, 21250380497469473169186657738789224406864034074683313712099364806222857485689nat, group_prime());
    }
    assert(pow_mod_by_squaring(2, 6194nat, group_prime()) == 823638239584040162264774390630645323946041190720704977652894161172520176143nat) by {
        lemma_square_step(6194nat, 21250380497469473169186657738789224406864034074683313712099364806222857485689nat);
        lemma_mod_by_quotient(451578671287230933965918270986547473620090069184922575505931285240434181979068648082182710303006703990304034875205002994273980952847935981595622839804721nat, 20631106568550454449834892227263584648095453421859077886411107583858071938766nat, 823638239584040162264774390630645323946041190720704977652894161172520176143nat, group_prime());
    }
    assert(pow_mod_by_squaring(2, 12388nat, group_prime()) == 10625820468344905038336166141364672950482578538490710962222451056881526836359nat) by {
        lemma_square_step(12388nat, 823638239584040162264774390630645323946041190720704977652894161172520176143nat);
        lemma_mod_by_quotient(678379949705096742847168972800909628161856026951135492145559487119142633598624739497167669363577309128502496101488339191522279768675613222411746356449nat, 30992892105463570467583796055498845492820609314940280013257497769071862230nat, 10625820468344905038336166141364672950482578538490710962222451056881526836359nat, group_prime());
    }
    assert(pow_mod_by_squaring(2, 24776nat, group_prime()) == 17581837072563742963111528092179855224762024361326536424141212304763780009358nat) by {
        lemma_square_step(24776nat, 10625820468344905038336166141364672950482578538490710962222451056881526836359nat);
        lemma_mod_by_quotient(112908060625497537055856477184592318814363866489711789756937448063665976025945734526909140262805259997134575486185768906788791222773887053429107164376881nat, 5158388514171756395309949940642157692003987755794800535149057321991671658181nat, 17581837072563742963111528092179855224762024361326536424141212304763780009358nat, group_prime());
    }
    assert(pow_mod_by_squaring(2, 49553nat, group_prime()) == 21426823313462460259637163434626310297191497283256812457386002067124618159007nat) by {
        lemma_square_double_step(49553nat, 17581837072563742963111528092179855224762024361326536424141212304763780009358nat);
        lemma_mod_by_quotient(309120994846176807040144592291772189487926560529458069849453600398409095346651475067169016320226062208108453505599874633449594397908529384358906567572164nat, 14122695762110815917384319885446306485441253281629867694536006219385657567143nat, 21657533092650867740941784589941792692943904220277318060037519980884922183795nat, group_prime());
        lemma_mod_by_quotient(43315066185301735481883569179883585385887808440554636120075039961769844367590nat, 1nat, 21426823313462460259637163434626310297191497283256812457386002067124618159007nat, group_prime());
    }
}

proof fn lemma_fermat_steps_2()
    requires
        pow_mod_by_squaring(2, 49553nat, group_prime()) == 21426823313462460259637163434626310297191497283256812457386002067124618159007nat,
    ensures
        pow_mod_by_squaring(2, 12685625nat, group_prime()) == 5022969707680440255288979269976650572559827351203530659167499400391221009066nat,
{
    assert(pow_mod_by_squaring(2, 99106nat, group_prime()) == 10652141964527913532934933465355759461855925523333408078671159628012756288189nat) by {
        lemma_square_step(99106nat, 21426823313462460259637163434626310297191497283256812457386002067124618159007nat);
        lemma_mod_by_quotient(459108757306338404514273082296228026453480668127458357464208354486149496757365923024215594691222081364876667917562306780989286923338403020492293935226049nat, 20975130803990360060506596597922972072807173108496405793004470949950799251420nat, 10652141964527913532934933465355759461855925523333408078671159628012756288189nat, group_prime());
    }
    assert(pow_mod_by_squaring(2, 198212nat, group_prime()) == 10873621021369290991296108929704508997531099076851697843170376632603564909816nat) by {
        lemma_square_step(198212nat, 10652141964527913532934933465355759461855925523333408078671159628012756288189nat);
        lemma_mod_by_quotient(113468128432456597091358094393983894186087140991060605630088677760335974718875010150086047536872953892360760533201728409023238576755342790272360820899721nat, 5183976123475910529072628027901204349872485764174525666138337147807776306535nat, 10873621021369290991296108929704508997531099076851697843170376632603564909816nat, group_prime());
    }
    assert(pow_mod_by_squaring(2, 396425nat, group_prime()) == 4021543383762370315145837967768245762272187247254756082311179966586146035238nat) by {
        lemma_square_double_step(396425nat, 10873621021369290991296108929704508997531099076851697843170376632603564909816nat);
        lemma_mod_by_quotient(118235634116364143012782972023333983509352327474560734447850962297885700708329758213954065044266093816962292294923749472570883591195958239785196213153856nat, 5401787380040560073008320063516685190836207281384517899281561825252386370539nat, 2010771691881185157572918983884122881136093623627378041155589983293073017619nat, group_prime());
        lemma_mod_by_quotient(4021543383762370315145837967768245762272187247254756082311179966586146035238nat, 0nat, 4021543383762370315145837967768245762272187247254756082311179966586146035238nat, group_prime());
    }
    assert(pow_mod_by_squaring(2, 792851nat, group_prime()) == 14362694808791483364840745018772596682546273304130986889784830973152135708217nat) by {
        lemma_square_double_step(792851nat, 4021543383762370315145837967768245762272187247254756082311179966586146035238nat);
        lemma_mod_by_quotient(16172811187482895282121947215952676345441154788673195380894724571347927731934271897471589327793128767589203180320380350010688598008358458441226737716644nat, 738881201299640430953782623151565639781418724657379839239242285356395926268nat, 18125468840315379293543575382014935885621292230714405276236934433898680958400nat, group_prime());
        lemma_mod_by_quotient(36250937680630758587087150764029871771242584461428810552473868867797361916800nat, 1nat, 14362694808791483364840745018772596682546273304130986889784830973152135708217nat, group_prime());
    }
    assert(pow_mod_by_squaring(2, 1585703nat, group_prime()) == 5532595854047150872049067993891918328015098556105025652030078484442655642977nat) by {
        lemma_square_double_step(1585703nat, 14362694808791483364840745018772596682546273304130986889784830973152135708217nat);
        lemma_mod_by_quotient(206287002170485824894259522372773701698326375743207123616636416614543683473434902499892432815183075579442557064700202294605241494665129683996688161319089nat, 9424557438362866169953122659322771157632278875655487275689373004482050187323nat, 13710419362943213047147736869574596708355704856701424657359558189543940925780nat, group_prime());
        lemma_mod_by_quotient(27420838725886426094295473739149193416711409713402849314719116379087881851560nat, 1nat, 5532595854047150872049067993891918328015098556105025652030078484442655642977nat, group_prime());
    }
    assert(pow_mod_by_squaring(2, 3171406nat, group_prime()) == 10009586304438794443847653724752533372502488579172363016867350225296151134107nat) by {
        lemma_square_step(3171406nat, 5532595854047150872049067993891918328015098556105025652030078484442655642977nat);
        lemma_mod_by_quotient(30609616884219722754424539339876036912766889555678067808489855002335045717458638093876349546364002431197469823820836728680644369553530831995381289422529nat, 1398450166303714264935682898440840670995521778904293539016226000513553560234nat, 10009586304438794443847653724752533372502488579172363016867350225296151134107nat, group_prime());
    }
    assert(pow_mod_by_squaring(2, 6342812nat, group_prime()) == 10902734501214299904512752247057691348056444722593653542606420917338301815988nat) by {
        lemma_square_step(6342812nat, 10009586304438794443847653724752533372502488579172363016867350225296151134107nat);
        lemma_mod_by_quotient(100191817986008682127010084135586659407145523001139334610165030225287368497992085092674861777546753254070729970974274346560290104115128742382862298687449nat, 4577426272755421751306221645106898850447401674764094055166044464536685410867nat, 10902734501214299904512752247057691348056444722593653542606420917338301815988nat, group_prime());
    }
    assert(pow_mod_by_squaring(2, 12685625nat, group_prime()) == 5022969707680440255288979269976650572559827351203530659167499400391221009066nat) by {
        lemma_square_double_step(12685625nat, 10902734501214299904512752247057691348056444722593653542606420917338301815988nat);
        lemma_mod_by_quotient(118869619603968628926030303485996509126631808288405366492198181289887321312677941022285093375987235154499835810968366130310044343054864560692778612416144nat, 5430752038890364398754275489696564945250960869015555074286162725989414327917nat, 2511484853840220127644489634988325286279913675601765329583749700195610504533nat, group_prime());
        lemma_mod_by_quotient(5022969707680440255288979269976650572559827351203530659167499400391221009066nat, 0nat, 5022969707680440255288979269976650572559827351203530659167499400391221009066nat, group_prime());
    }
}

proof fn lemma_fermat_steps_3()
    requires
        pow_mod_by_squaring(2, 12685625nat, group_prime()) == 5022969707680440255288979269976650572559827351203530659167499400391221009066nat,
    ensures
        pow_mod_by_squaring(2, 3247520203nat, group_prime()) == 7036851553154710918262882750617303724259716539242396800544090637171264305382nat,
{
    assert(pow_mod_by_squaring(2, 25371251nat, group_prime()) == 6386961820344017628701836522407185741940945389432486382168525739885929203121nat) by {
        lemma_square_double_step(25371251nat, 5022969707680440255288979269976650572559827351203530659167499400391221009066nat);
        lemma_mod_by_quotient(25230224684275327428942777749105112127973197398244016735113379645775480624062456900776951353077630988524820221541447717043114477712952998734619254192356nat, 1152683878372701213195601698674345475547683960980527650509886991842694406488nat, 14137602346091646425474121133832230415318628273365155022428781817265577705852nat, group_prime());
        lemma_mod_by_quotient(28275204692183292850948242267664460830637256546730310044857563634531155411704nat, 1nat, 6386961820344017628701836522407185741940945389432486382168525739885929203121nat, group_prime());
    }
    assert(pow_mod_by_squaring(2, 50742503nat, group_prime()) == 15249628910596073334143418108728668304061932643774434909942619291933621634667nat) by {
        lemma_square_double_step(50742503nat, 6386961820344017628701836522407185741940945389432486382168525739885929203121nat);
        lemma_mod_by_quotient(40793281294532167319969480193850174310707534076401144413090251386811659159404329536690921827235975748924904833698976870673988665544165815780610076140641nat, 1863707449400404811332910280549391838338891473304023644687334549972387056952nat, 18568935891217674278194911926992971696379121900536129286315828593289423921625nat, group_prime());
        lemma_mod_by_quotient(37137871782435348556389823853985943392758243801072258572631657186578847843250nat, 1nat, 15249628910596073334143418108728668304061932643774434909942619291933621634667nat, group_prime());
    }
    assert(pow_mod_by_squaring(2, 101485006nat, group_prime()) == 2459967159536043593122361588782386618029235887155800321257772936089057781199nat) by {
        lemma_square_step(101485006nat, 15249628910596073334143418108728668304061932643774434909942619291933621634667nat);
        lemma_mod_by_quotient(232551181910887582398022421173849298007319349338626660233651770398791974214222653790845270017169698826215329379358864008654980989141786478912281216200889nat, 10624479236297246047024946994684393247167811685907944015716681903835756063430nat, 2459967159536043593122361588782386618029235887155800321257772936089057781199nat, group_prime());
    }
    assert(pow_mod_by_squaring(2, 202970012nat, group_prime()) == 6535472195652418674007476966271104615608389515182335273008074038293909396195nat) by {
        lemma_square_step(202970012nat, 2459967159536043593122361588782386618029235887155800321257772936089057781199nat);
        lemma_mod_by_quotient(6051438425995830551034078287582999696393165562631367663938759789740488368877560838887750492631814131468080273861231637402677397232554948920088957877601nat, 276469813562852086228191653617209012702705320836229532695993198520802267282nat, 6535472195652418674007476966271104615608389515182335273008074038293909396195nat, group_prime());
    }
    assert(pow_mod_by_squaring(2, 405940025nat, group_prime()) == 12785342277793776610351239449075029367374568213987711388527806471257013969804nat) by {
        lemma_square_double_step(405940025nat, 6535472195652418674007476966271104615608389515182335273008074038293909396195nat);
        lemma_mod_by_quotient(42712396820145846232374919996529188595329914871092994681425719577664853749289387071916322177729987878407030702813167828929332487823253703991709480478025nat, 1951385365661227765801923485120822614525796137020929733847837504910521681381nat, 6392671138896888305175619724537514683687284106993855694263903235628506984902nat, group_prime());
        lemma_mod_by_quotient(12785342277793776610351239449075029367374568213987711388527806471257013969804nat, 0nat, 12785342277793776610351239449075029367374568213987711388527806471257013969804nat, group_prime());
    }
    assert(pow_mod_by_squaring(2, 811880050nat, group_prime()) == 11968373654208499845326349449306356669230122655169204023389868298098272264147nat) by {
        lemma_square_step(811880050nat, 12785342277793776610351239449075029367374568213987711388527806471257013969804nat);
        lemma_mod_by_quotient(163464977160340956039264996402359026449914721006191527210980267227517505907693276924499027529529146229445781109826914897305778969769955784042411423798416nat, 7468163530415219113570080836491266881995982406046165129974030998365379604443nat, 11968373654208499845326349449306356669230122655169204023389868298098272264147nat, group_prime());
    }
    assert(pow_mod_by_squaring(2, 1623760101nat, group_prime()) == 7003056321140655395295916175179188241686098130164245526136340659212509007704nat) by {
        lemma_square_double_step(1623760101nat, 11968373654208499845326349449306356669230122655169204023389868298098272264147nat);
        lemma_mod_by_quotient(143241967926752119827377383747652327113780910307792212638743039968494236218574409940891135580477830448253056919471517023318025411498852061512577741637609nat, 6544242439444178958899423569900260801302113563418351724646977534313505957979nat, 3501528160570327697647958087589594120843049065082122763068170329606254503852nat, group_prime());
        lemma_mod_by_quotient(7003056321140655395295916175179188241686098130164245526136340659212509007704nat, 0nat, 7003056321140655395295916175179188241686098130164245526136340659212509007704nat, group_prime());
    }
    assert(pow_mod_by_squaring(2, 3247520203nat, group_prime()) == 7036851553154710918262882750617303724259716539242396800544090637171264305382nat) by {
        lemma_square_double_step(3247520203nat, 7003056321140655395295916175179188241686098130164245526136340659212509007704nat);
        lemma_mod_by_quotient(49042797837068090351239422812375365485278412635106108020225728905990582647270089431605471496100761788487413185509419337894664581960758952227338731351616nat, 2240600039218543732110024342054226615732570267034139565881994385798900134475nat, 3518425776577355459131441375308651862129858269621198400272045318585632152691nat, group_prime());
        lemma_mod_by_quotient(7036851553154710918262882750617303724259716539242396800544090637171264305382nat, 0nat, 7036851553154710918262882750617303724259716539242396800544090637171264305382nat, group_prime());
    }
}

proof fn lemma_fermat_steps_4()
    requires
        pow_mod_by_squaring(2, 3247520203nat, group_prime()) == 7036851553154710918262882750617303724259716539242396800544090637171264305382nat,
    ensures
        pow_mod_by_squaring(2, 831365172100nat, group_prime()) == 9348698335051786558086741163685177234684625402384242572367531382614131956452nat,
{
    assert(pow_mod_by_squaring(2, 6495040407nat, group_prime()) == 17224307093847190289306407052575579555254641739511973526433591357559655076515nat) by {
        lemma_square_double_step(6495040407nat, 7036851553154710918262882750617303724259716539242396800544090637171264305382nat);
        lemma_mod_by_quotient(49517279781135867339912380560106315228877183801317489472732115241465584357326892498281383674804753767292026375448689886411071534250641278965978954165924nat, 2262277519080494210233631109085063352946555562593327145944280350631930273625nat, 19556274982843232755776406398916427321975476448404898594561314626102440642549nat, group_prime());
        lemma_mod_by_quotient(39112549965686465511552812797832854643950952896809797189122629252204881285098nat, 1nat, 17224307093847190289306407052575579555254641739511973526433591357559655076515nat, group_prime());
    }
    assert(pow_mod_by_squaring(2, 12990080814nat, group_prime()) == 14009927992467550237520592094418435745064840799274047520463172734798093502089nat) by {
        lemma_square_step(12990080814nat, 17224307093847190289306407052575579555254641739511973526433591357559655076515nat);
        lemma_mod_by_quotient(296676754863154642068159869478340631384256794427485284721099267962462941650302696777635721858653796711725559300031803514254793341249369166379010504545225nat, 13554160404755450827896440222809027441865360411725581422996897622903123814592nat, 14009927992467550237520592094418435745064840799274047520463172734798093502089nat, group_prime());
    }
    assert(pow_mod_by_squaring(2, 25980161628nat, group_prime()) == 704370022647955324733709496600928384112316109159555755662278049148317751806nat) by {
        lemma_square_step(25980161628nat, 14009927992467550237520592094418435745064840799274047520463172734798093502089nat);
        lemma_mod_by_quotient(196278082354125842384830586944619061894796926085865912581916693444731031368525885962491554395261171110855199594134917290433555593897346920728684647363921nat, 8967283646447977290881706293477602655663261053015623331133109184185798592405nat, 704370022647955324733709496600928384112316109159555755662278049148317751806nat, group_prime());
    }
    assert(pow_mod_by_squaring(2, 51960323256nat, group_prime()) == 5738656083837719858448336265087965779926461568262784334282410386607132528515nat) by {
        lemma_square_step(51960323256nat, 704370022647955324733709496600928384112316109159555755662278049148317751806nat);
        lemma_mod_by_quotient(496137128805081097095246307375576627997425621618313592093328105329984334136329957814571964120150641652445524307141391830319470678285968488786216261636nat, 22666832221758445529481168058591687164543466743682800316144863632069840887nat, 5738656083837719858448336265087965779926461568262784334282410386607132528515nat, group_prime());
    }
    assert(pow_mod_by_squaring(2, 103920646512nat, group_prime()) == 7336446999569910792237948171130360532649333639637016757337581252962739845959nat) by {
        lemma_square_step(103920646512nat, 5738656083837719858448336265087965779926461568262784334282410386607132528515nat);
        lemma_mod_by_quotient(32932173648567675212770662258991811254994143450684630119156655095210205556687356435313064210279309122139433387871854531814690627850764220761017288105225nat, 1504559952180408868623861314857642845763440602301956548287409370387248998702nat, 7336446999569910792237948171130360532649333639637016757337581252962739845959nat, group_prime());
    }
    assert(pow_mod_by_squaring(2, 207841293025nat, group_prime()) == 6780417473908113462516234086110318969917194508964863393182613721256861558558nat) by {
        lemma_square_double_step(207841293025nat, 7336446999569910792237948171130360532649333639637016757337581252962739845959nat);
        lemma_mod_by_quotient(53823454577498346644148413019123029660470820544689208604685551368130791154336396814018787065202203788989464250636317288968856819951120732333159048629681nat, 2459012123204549702382517413973143637548583791657043561582921893120914169294nat, 3390208736954056731258117043055159484958597254482431696591306860628430779279nat, group_prime());
        lemma_mod_by_quotient(6780417473908113462516234086110318969917194508964863393182613721256861558558nat, 0nat, 6780417473908113462516234086110318969917194508964863393182613721256861558558nat, group_prime());
    }
    assert(pow_mod_by_squaring(2, 415682586050nat, group_prime()) == 6658853939409881198305540849480977402608023216905784943949511366565692277465nat) by {
        lemma_square_step(415682586050nat, 6780417473908113462516234086110318969917194508964863393182613721256861558558nat);
        lemma_mod_by_quotient(45974061120478482507247878348044410389006407402503740727333369656682393341649041042028623635647707178556042969489287105962358865634249408900844863039364nat, 2100399807772019170034076375529518559990768568440061528498180517334801629053nat, 6658853939409881198305540849480977402608023216905784943949511366565692277465nat, group_prime());
    }
    assert(pow_mod_by_squaring(2, 831365172100nat, group_prime()) == 9348698335051786558086741163685177234684625402384242572367531382614131956452nat) by {
        lemma_square_step(831365172100nat, 6658853939409881198305540849480977402608023216905784943949511366565692277465nat);
        lemma_mod_by_quotient(44340335786394493784885784218908011068792605144478441982041189650305012817391766868714231270188841653604431327467954460715798869532894087163538546826225nat, 2025760406900518043377589064552658051465395649012725946825904296427465713931nat, 9348698335051786558086741163685177234684625402384242572367531382614131956452nat, group_prime());
    }
}

proof fn lemma_fermat_steps_5()
    requires
        pow_mod_by_squaring(2, 831365172100nat, group_prime()) == 9348698335051786558086741163685177234684625402384242572367531382614131956452nat,
    ensures
        pow_mod_by_squaring(2, 212829484057798nat, group_prime()) == 5588155173236534254399178401010480243802502299321587341553366006206157740833nat,
{
    assert(pow_mod_by_squaring(2, 1662730344201nat, group_prime()) == 15221157198792001193823085772944045314131796636507070445308211863221991296094nat) by {
        lemma_square_double_step(1662730344201nat, 9348698335051786558086741163685177234684625402384242572367531382614131956452nat);
        lemma_mod_by_quotient(87398160559800046043724477652637629172767987377422555773139409656104302042766142961768251540296629797376829022297813597603272406835492813263561224428304nat, 3992927210810684592913005023819791101280791932814940840751214062744732643479nat, 7610578599396000596911542886472022657065898318253535222654105931610995648047nat, group_prime());
        lemma_mod_by_quotient(15221157198792001193823085772944045314131796636507070445308211863221991296094nat, 0nat, 15221157198792001193823085772944045314131796636507070445308211863221991296094nat, group_prime());
    }
    assert(pow_mod_by_squaring(2, 3325460688403nat, group_prime()) == 9783616000120656160272229902295094640593271732725098990971601949932851798640nat) by {
        lemma_square_double_step(3325460688403nat, 15221157198792001193823085772944045314131796636507070445308211863221991296094nat);
        lemma_mod_by_quotient(231683626470337560548996976193854491046774227200583351680947809195766152185684294025584188951387889848789623833496441352791794154587112861785493979656836nat, 10584843553998316908696348297127198394028116078364695998743603693978627066452nat, 4891808000060328080136114951147547320296635866362549495485800974966425899320nat, group_prime());
        lemma_mod_by_quotient(9783616000120656160272229902295094640593271732725098990971601949932851798640nat, 0nat, 9783616000120656160272229902295094640593271732725098990971601949932851798640nat, group_prime());
    }
    assert(pow_mod_by_squaring(2, 6650921376806nat, group_prime()) == 12698390941818843120737099426760372087858547201916634278457021803496429816636nat) by {
        lemma_square_step(6650921376806nat, 9783616000120656160272229902295094640593271732725098990971601949932851798640nat);
        lemma_mod_by_quotient(95719142037816907080290463564557087323815477365318729531787498343954631885899330919233347096542165567956562405857629252100414600443771576945883105849600nat, 4373084792519647356079730488524489223563259053771796400228268729177999982108nat, 12698390941818843120737099426760372087858547201916634278457021803496429816636nat, group_prime());
    }
    assert(pow_mod_by_squaring(2, 13301842753612nat, group_prime()) == 13507759375280614490498650544102788009423360754763145915896282429802197705033nat) by {
        lemma_square_step(13301842753612nat, 12698390941818843120737099426760372087858547201916634278457021803496429816636nat);
        lemma_mod_by_quotient(161249132511266845614606809263158875785765128466974656072098886975106166735952850373406998317541609912139173929760846641642753806586330792261252582356496nat, 7366929061205041148571895482239614862702662936183795292230684075557348191361nat, 13507759375280614490498650544102788009423360754763145915896282429802197705033nat, group_prime());
    }
    assert(pow_mod_by_squaring(2, 26603685507224nat, group_prime()) == 10692036067160199500102293398897189847766231149876687053766014590065065527182nat) by {
        lemma_square_step(26603685507224nat, 13507759375280614490498650544102788009423360754763145915896282429802197705033nat);
        lemma_mod_by_quotient(182459563340481336654666735116184388632343884253136829974091528869809470768942825250117568072596747427258619456896646016972749237243926688274212073531089nat, 8335962114858843764429689773236304139711935247041390024805992374610444885029nat, 10692036067160199500102293398897189847766231149876687053766014590065065527182nat, group_prime());
    }
    assert(pow_mod_by_squaring(2, 53207371014449nat, group_prime()) == 4402752084451624168929324633293288998457722697621936612351554690757193822530nat) by {
        lemma_square_double_step(53207371014449nat, 10692036067160199500102293398897189847766231149876687053766014590065065527182nat);
        lemma_mod_by_quotient(114319635261454546155043846300682568457249290347773233458028903617870838520599659363214023672266400472860359086238978286982708335551140693587471580861124nat, 5222878598836025934474826962888097740834438382735374957690760157330316655173nat, 2201376042225812084464662316646644499228861348810968306175777345378596911265nat, group_prime());
        lemma_mod_by_quotient(4402752084451624168929324633293288998457722697621936612351554690757193822530nat, 0nat, 4402752084451624168929324633293288998457722697621936612351554690757193822530nat, group_prime());
    }
    assert(pow_mod_by_squaring(2, 106414742028899nat, group_prime()) == 17931851160285061752512158502644565502918936090259838094144300108383388149839nat) by {
        lemma_square_double_step(106414742028899nat, 4402752084451624168929324633293288998457722697621936612351554690757193822530nat);
        lemma_mod_by_quotient(19384225917143121558080668545850230995837640547567917192065200373529326598661240476834923707057872638159322517808406308636661116392240816277593135600900nat, 885599909990137074297374253088713192290811366421792778174551157701325997183nat, 19910047016062168487379282123950920295807623623778830878416669001514307179211nat, group_prime());
        lemma_mod_by_quotient(39820094032124336974758564247901840591615247247557661756833338003028614358422nat, 1nat, 17931851160285061752512158502644565502918936090259838094144300108383388149839nat, group_prime());
    }
    assert(pow_mod_by_squaring(2, 212829484057798nat, group_prime()) == 5588155173236534254399178401010480243802502299321587341553366006206157740833nat) by {
        lemma_square_step(212829484057798nat, 17931851160285061752512158502644565502918936090259838094144300108383388149839nat);
        lemma_mod_by_quotient(321551286034616715434994824922246933066819234315096274340765455934907371245872471625718160573065319454817008529360258096532161900734362238660971515725921nat, 14690593846083208696313613715487172333860627774839321291764343251142591596736nat, 5588155173236534254399178401010480243802502299321587341553366006206157740833nat, group_prime());
    }
}

proof fn lemma_fermat_steps_6()
    requires
        pow_mod_by_squaring(2, 212829484057798nat, group_prime()) == 5588155173236534254399178401010480243802502299321587341553366006206157740833nat,
    ensures
        pow_mod_by_squaring(2, 54484347918796416nat, group_prime()) == 6988609170369615227259309345842116663020874932440700661173119164595981751009nat,
{
    assert(pow_mod_by_squaring(2, 425658968115597nat, group_prime()) == 20611881837686567021547850450998288412938498636941722718030168099325967366276nat) by {
        lemma_square_double_step(425658968115597nat, 5588155173236534254399178401010480243802502299321587341553366006206157740833nat);
        lemma_mod_by_quotient(31227478240170240163680882030617342449989705805729055170878608832941107354133845219523619343224106099091662721165726818360656597449981660101366395533889nat, 1426678167955936353297583462485154379066653984091855850059681272082187695497nat, 10305940918843283510773925225499144206469249318470861359015084049662983683138nat, group_prime());
        lemma_mod_by_quotient(20611881837686567021547850450998288412938498636941722718030168099325967366276nat, 0nat, 20611881837686567021547850450998288412938498636941722718030168099325967366276nat, group_prime());
    }
    assert(pow_mod_by_squaring(2, 851317936231194nat, group_prime()) == 16507481481802763881154458453677128698426273288507985989246830919646493147613nat) by {
        lemma_square_step(851317936231194nat, 20611881837686567021547850450998288412938498636941722718030168099325967366276nat);
        lemma_mod_by_quotient(424849672890753371212122026949724845458960134525855737182780731119912513601415259425816202233739491727077374065674274825586413948995421982524911942108176nat, 19409948773793605725255343080182717614423769812526118920813434865555328539061nat, 16507481481802763881154458453677128698426273288507985989246830919646493147613nat, group_prime());
    }
    assert(pow_mod_by_squaring(2, 1702635872462388nat, group_prime()) == 10090114711507286889835719168920742015354382831934239477069820458676834035007nat) by {
        lemma_square_step(1702635872462388nat, 16507481481802763881154458453677128698426273288507985989246830919646493147613nat);
        lemma_mod_by_quotient(272496944872061173165190245498204366181528758831463734863037814840076981259592800709641074711555962580662855277878657929925359145436992282604564207597769nat, 12449466431252330947294511937360169787269092502103345853234124192212896722214nat, 10090114711507286889835719168920742015354382831934239477069820458676834035007nat, group_prime());
    }
    assert(pow_mod_by_squaring(2, 3405271744924776nat, group_prime()) == 4575996939145446446323840194583661619204312651028376196155632377098446587842nat) by {
        lemma_square_step(3405271744924776nat, 10090114711507286889835719168920742015354382831934239477069820458676834035007nat);
        lemma_mod_by_quotient(101810414891375779340914992707782943080583456120034026589889127512009236939218441825988957480591659152908772943697033507845322231764457857355856901490049nat, 4651374506738585976832324598903492101580026134800134166868942110732876765129nat, 4575996939145446446323840194583661619204312651028376196155632377098446587842nat, group_prime());
    }
    assert(pow_mod_by_squaring(2, 6810543489849552nat, group_prime()) == 1823820153372190368258657939613140988922379705916904411455962078779142319558nat) by {
        lemma_square_step(6810543489849552nat, 4575996939145446446323840194583661619204312651028376196155632377098446587842nat);
        lemma_mod_by_quotient(20939747987068494707353795735028233624634593149397378417754724131010809119643570804854134590371490085986868418781011078429584700020471251525732622216964nat, 956666467458149224100053328368692864505564538046282894446289738886322019282nat, 1823820153372190368258657939613140988922379705916904411455962078779142319558nat, group_prime());
    }
    assert(pow_mod_by_squaring(2, 13621086979699104nat, group_prime()) == 15864824143059867194170899367311789806047000904830441571767948192286116125040nat) by {
        lemma_square_step(13621086979699104nat, 1823820153372190368258657939613140988922379705916904411455962078779142319558nat);
        lemma_mod_by_quotient(3326319951846559997903789404224322529982349095069651360735975286916081634619079882518357693708069198315195996112399133263600327449874197174220589315364nat, 151968340781072866181115436545555990231858655921723795857585953466419450028nat, 15864824143059867194170899367311789806047000904830441571767948192286116125040nat, group_prime());
    }
    assert(pow_mod_by_squaring(2, 27242173959398208nat, group_prime()) == 10332847287199664831429349033033062296171279933326040749737165266344419803926nat) by {
        lemma_square_step(27242173959398208nat, 15864824143059867194170899367311789806047000904830441571767948192286116125040nat);
        lemma_mod_by_quotient(251692645090215249463915890382040912014215365646752915940923525851396082139182761716636186446491717476245033501618843211088813661614890292367904915001600nat, 11498988135499679125471341923043020454634661278977572520992214712761971265478nat, 10332847287199664831429349033033062296171279933326040749737165266344419803926nat, group_prime());
    }
    assert(pow_mod_by_squaring(2, 54484347918796416nat, group_prime()) == 6988609170369615227259309345842116663020874932440700661173119164595981751009nat) by {
        lemma_square_step(54484347918796416nat, 10332847287199664831429349033033062296171279933326040749737165266344419803926nat);
        lemma_mod_by_quotient(106767733060589472792527989021213212622016260886492488823409588958145707522793941519056121153655756937475298338767487713505571750020180269968424285013476nat, 4877857655625407909634147585118011190348065839087887147913390082457567349349nat, 6988609170369615227259309345842116663020874932440700661173119164595981751009nat, group_prime());
    }
}

proof fn lemma_fermat_steps_7()
    requires
        pow_mod_by_squaring(2, 54484347918796416nat, group_prime()) == 6988609170369615227259309345842116663020874932440700661173119164595981751009nat,
    ensures
        pow_mod_by_squaring(2, 13947993067211882662nat, group_prime()) == 10404175815067918291257169886265670343456016763731697019493030700342719842308nat,
{
    assert(pow_mod_by_squaring(2, 108968695837592833nat, group_prime()) == 10472385529493428244706806350922882638969117379145215304027215961592422900795nat) by {
        lemma_square_double_step(108968695837592833nat, 6988609170369615227259309345842116663020874932440700661173119164595981751009nat);
        lemma_mod_by_quotient(48840658136174281633328701940659786661315525158523375097896623654487188378623495880933165832302930427283292160553511769153618055241062720487753672518081nat, 2231364957988982116695175131662224426741396100811712725804171786018626477824nat, 16180314200666351733476606048090078863832714268221519483358126928118824554689nat, group_prime());
        lemma_mod_by_quotient(32360628401332703466953212096180157727665428536443038966716253856237649109378nat, 1nat, 10472385529493428244706806350922882638969117379145215304027215961592422900795nat, group_prime());
    }
    assert(pow_mod_by_squaring(2, 217937391675185666nat, group_prime()) == 10566490663777820323744443948755797886009913686380633793309866525104264351644nat) by {
        lemma_square_step(217937391675185666nat, 10472385529493428244706806350922882638969117379145215304027215961592422900795nat);
        lemma_mod_by_quotient(109670858678343351460178330787094623856278459376159674516118886933873763114682949635627596515835070790749147654449387572446415771838052071376362411632025nat, 5010491674479838146644050866667226538661969274403755929578311934617631614107nat, 10566490663777820323744443948755797886009913686380633793309866525104264351644nat, group_prime());
    }
    assert(pow_mod_by_squaring(2, 435874783350371333nat, group_prime()) == 17026767140149228385290166173388473996151815432490401485212039279075789371241nat) by {
        lemma_square_double_step(435874783350371333nat, 10566490663777820323744443948755797886009913686380633793309866525104264351644nat);
        lemma_mod_by_quotient(111650724947703841946279612821339889254185239697630776000421142230848840171632746765718732342363585073612439427898733384230074701045479689223743685502736nat, 5100945087344135451704626325824587513962810486822988581276504698729036507528nat, 19457505005994251803768285959322874542424063294894112573950538586860507789912nat, group_prime());
        lemma_mod_by_quotient(38915010011988503607536571918645749084848126589788225147901077173721015579824nat, 1nat, 17026767140149228385290166173388473996151815432490401485212039279075789371241nat, group_prime());
    }
    assert(pow_mod_by_squaring(2, 871749566700742666nat, group_prime()) == 20076818484273828889321283218479290477004345872296960916577853638351243471869nat) by {
        lemma_square_step(871749566700742666nat, 17026767140149228385290166173388473996151815432490401485212039279075789371241nat);
        lemma_mod_by_quotient(289910799244865533534049990643357133268801415226844285965946021009775788107807192303442680572189524955392530526063075308502585874043353979271106117880081nat, 13245046710344010693180780896262822894717018291002139005773163458127057548364nat, 20076818484273828889321283218479290477004345872296960916577853638351243471869nat, group_prime());
    }
    assert(pow_mod_by_squaring(2, 1743499133401485332nat, group_prime()) == 7046121761994666200104082808856321550535309475933509236538822300060390056070nat) by {
        lemma_square_step(1743499133401485332nat, 20076818484273828889321283218479290477004345872296960916577853638351243471869nat);
        lemma_mod_by_quotient(403078640450479284069232440531354986414496335982650628588564435119739885837605530618777708329245321389103234721216507359182246624217876595374588994353161nat, 18415303723126518479696668775244073808390906933340194182320054177348272341477nat, 7046121761994666200104082808856321550535309475933509236538822300060390056070nat, group_prime());
    }
    assert(pow_mod_by_squaring(2, 3486998266802970665nat, group_prime()) == 12568291814211206627240246926068294315054256574326528746841472522820751305438nat) by {
        lemma_square_double_step(3486998266802970665nat, 7046121761994666200104082808856321550535309475933509236538822300060390056070nat);
        lemma_mod_by_quotient(49647831884854819436958477538486556903231931230886760493637478854200647741672820713493165800056577761787433239048708947750174742861179680872137743844900nat, 2268242004420106204722958369476835418287274433898188078755838015097804828707nat, 6284145907105603313620123463034147157527128287163264373420736261410375652719nat, group_prime());
        lemma_mod_by_quotient(12568291814211206627240246926068294315054256574326528746841472522820751305438nat, 0nat, 12568291814211206627240246926068294315054256574326528746841472522820751305438nat, group_prime());
    }
    assert(pow_mod_by_squaring(2, 6973996533605941331nat, group_prime()) == 8765994872121936161354510678757228507611219206493616099591269490301864296125nat) by {
        lemma_square_double_step(6973996533605941331nat, 12568291814211206627240246926068294315054256574326528746841472522820751305438nat);
        lemma_mod_by_quotient(157961959127168423644456897943875813904540023951264621804553662238889010432966050462605457872949547586477131985866495518571386068013045054650181168371844nat, 7216749195084878718945363560172099601172458246436128552675177801779424914030nat, 15327118871980605691800458212007251798153765181895719881140153692473545252354nat, group_prime());
        lemma_mod_by_quotient(30654237743961211383600916424014503596307530363791439762280307384947090504708nat, 1nat, 8765994872121936161354510678757228507611219206493616099591269490301864296125nat, group_prime());
    }
    assert(pow_mod_by_squaring(2, 13947993067211882662nat, group_prime()) == 10404175815067918291257169886265670343456016763731697019493030700342719842308nat) by {
        lemma_square_step(13947993067211882662nat, 8765994872121936161354510678757228507611219206493616099591269490301864296125nat);
        lemma_mod_by_quotient(76842666098068079914304878795556082124832320279370549228487772907636760401285944175236162354734038584607037741415191536223033029679197505775041690015625nat, 3510682266639659641536803878405210316370841778476588874346591676966370329299nat, 10404175815067918291257169886265670343456016763731697019493030700342719842308nat, group_prime());
    }
}

proof fn lemma_fermat_steps_8()
    requires
        pow_mod_by_squaring(2, 13947993067211882662nat, group_prime()) == 10404175815067918291257169886265670343456016763731697019493030700342719842308nat,
    ensures
        pow_mod_by_squaring(2, 3570686225206241961697nat, group_prime()) == 15238182436626214186894146049323677434980417391788557309699334812887089410558nat,
{
    assert(pow_mod_by_squaring(2, 27895986134423765325nat, group_prime()) == 20931348672539604989198815594689563992913544422520492823168399071998401744676nat) by {
        lemma_square_double_step(27895986134423765325nat, 10404175815067918291257169886265670343456016763731697019493030700342719842308nat);
        lemma_mod_by_quotient(108246874390844181911592558646350469863705460012699511762704872520981973475934412123091885243535033920288549278173909263426260167335462601511620386766864nat, 4945434634687428727565684479544822510961907113427608845972766136812890507922nat, 10465674336269802494599407797344781996456772211260246411584199535999200872338nat, group_prime());
        lemma_mod_by_quotient(20931348672539604989198815594689563992913544422520492823168399071998401744676nat, 0nat, 20931348672539604989198815594689563992913544422520492823168399071998401744676nat, group_prime());
    }
    assert(pow_mod_by_squaring(2, 55791972268847530651nat, group_prime()) == 10020167760291411966799597376977505623876135775440014132267669181818937034344nat) by {
        lemma_square_double_step(55791972268847530651nat, 20931348672539604989198815594689563992913544422520492823168399071998401744676nat);
        lemma_mod_by_quotient(438121357251425483932433579828124844965270379832588232112332900010660751600061186228328773016501376661203137572490070993142995815269241235764080694344976nat, 20016287274256200845396051791444491750314869484191411396833588049960509707588nat, 5010083880145705983399798688488752811938067887720007066133834590909468517172nat, group_prime());
        lemma_mod_by_quotient(10020167760291411966799597376977505623876135775440014132267669181818937034344nat, 0nat, 10020167760291411966799597376977505623876135775440014132267669181818937034344nat, group_prime());
    }
    assert(pow_mod_by_squaring(2, 111583944537695061303nat, group_prime()) == 5117879647752904995176018101508365972158013356246338644227230453636951735771nat) by {
        lemma_square_double_step(111583944537695061303nat, 10020167760291411966799597376977505623876135775440014132267669181818937034344nat);
        lemma_mod_by_quotient(100403761944383411189291952969935145839070955929422168618502286393551787601934521432121866643577195329304778718620430424754677871033512570748145835510336nat, 4587109277445003731976167717748302501085164103807528099132809781017123965273nat, 13503061259796090108711211923382820530427162256772081153458134174141088972177nat, group_prime());
        lemma_mod_by_quotient(27006122519592180217422423846765641060854324513544162306916268348282177944354nat, 1nat, 5117879647752904995176018101508365972158013356246338644227230453636951735771nat, group_prime());
    }
    assert(pow_mod_by_squaring(2, 223167889075390122606nat, group_prime()) == 12639316219914165187132385254769905399887916968082581956869069310647046529639nat) by {
        lemma_square_step(223167889075390122606nat, 5117879647752904995176018101508365972158013356246338644227230453636951735771nat);
        lemma_mod_by_quotient(26192692088883398911438818380187492258972844369284801528832379922541080321985055349802610452904782339055487487282898711778603741370468782227689800964441nat, 1196655768224414790924942549461174769636482372171133842064123748681914516094nat, 12639316219914165187132385254769905399887916968082581956869069310647046529639nat, group_prime());
    }
    assert(pow_mod_by_squaring(2, 446335778150780245212nat, group_prime()) == 6804600538011764953507299245062002204222951737512780519336274499464841128011nat) by {
        lemma_square_step(446335778150780245212nat, 12639316219914165187132385254769905399887916968082581956869069310647046529639nat);
        lemma_mod_by_quotient(159752314506985301714970752090904213819181131713025154466472366770558424882436225759395431335599095069942035411326856951893733850289189769697873305470321nat, 7298544494520279857792745849429378207042561907554041547097475807744786150570nat, 6804600538011764953507299245062002204222951737512780519336274499464841128011nat, group_prime());
    }
    assert(pow_mod_by_squaring(2, 892671556301560490424nat, group_prime()) == 8293980344027773051447984222012890373733194189632498792210062220087060738731nat) by {
        lemma_square_step(892671556301560490424nat, 6804600538011764953507299245062002204222951737512780519336274499464841128011nat);
        lemma_mod_by_quotient(46302588481910001061930765273882816997232898930132638432714400852918739109751510829259761470002004078822819458163357060952381471507065057268538888816121nat, 2115409114976582014316809337614921252378429150608814530720342460390473515330nat, 8293980344027773051447984222012890373733194189632498792210062220087060738731nat, group_prime());
    }
    assert(pow_mod_by_squaring(2, 1785343112603120980848nat, group_prime()) == 10860641893640928911923164081394062147162948146623320156699994368167244782098nat) by {
        lemma_square_step(1785343112603120980848nat, 8293980344027773051447984222012890373733194189632498792210062220087060738731nat);
        lemma_mod_by_quotient(68790109947119056621605735093980822127230861535480603909727601496234996690438863104494467823312492111695527753725167108781874970016927257868387443490361nat, 3142788132875766298550637997591215775060067824899079391682633146245228220961nat, 10860641893640928911923164081394062147162948146623320156699994368167244782098nat, group_prime());
    }
    assert(pow_mod_by_squaring(2, 3570686225206241961697nat, group_prime()) == 15238182436626214186894146049323677434980417391788557309699334812887089410558nat) by {
        lemma_square_double_step(3570686225206241961697nat, 10860641893640928911923164081394062147162948146623320156699994368167244782098nat);
        lemma_mod_by_quotient(117953542341908422231946035909141437414423546626078957560584497307921656323169638359260714713092791850447263533174335199416882969695945265267007501281604nat, 5388899558203629928900158294830817026872480182392514603835001098508016352275nat, 7619091218313107093447073024661838717490208695894278654849667406443544705279nat, group_prime());
        lemma_mod_by_quotient(15238182436626214186894146049323677434980417391788557309699334812887089410558nat, 0nat, 15238182436626214186894146049323677434980417391788557309699334812887089410558nat, group_prime());
    }
}

proof fn lemma_fermat_steps_9()
    requires
        pow_mod_by_squaring(2, 3570686225206241961697nat, group_prime()) == 15238182436626214186894146049323677434980417391788557309699334812887089410558nat,
    ensures
        pow_mod_by_squaring(2, 914095673652797942194497nat, group_prime()) == 736457823736055280732241560444775249044414665691257853794795081140073783257nat,
{
    assert(pow_mod_by_squaring(2, 7141372450412483923394nat, group_prime()) == 12502589251565748160071665215400705536236778629713484339676311228938253832302nat) by {
        lemma_square_step(7141372450412483923394nat, 15238182436626214186894146049323677434980417391788557309699334812887089410558nat);
        lemma_mod_by_quotient(232202203971903626144200939647913198814980438795469449451139017661246971775402982393854211600261299929012691289079597101735845693950467112516139881871364nat, 10608535611172684756044667832651099365926355493131495283987965433292480368314nat, 12502589251565748160071665215400705536236778629713484339676311228938253832302nat, group_prime());
    }
    assert(pow_mod_by_squaring(2, 14282744900824967846789nat, group_prime()) == 19344636777706048543569526062075715177534766539829107618625253479483021102683nat) by {
        lemma_square_double_step(14282744900824967846789nat, 12502589251565748160071665215400705536236778629713484339676311228938253832302nat);
        lemma_mod_by_quotient(156314737993367374731090128804103395917843320516198608220135976354811849958340905696341358537894151431507205645608899241012389824636063627541389538619204nat, 7141493216638097510651703260876982032719295940818759880437046868832935762037nat, 20616439824772661882907965903666495133115538848563465640657145687064123655633nat, group_prime());
        lemma_mod_by_quotient(41232879649545323765815931807332990266231077697126931281314291374128247311266nat, 1nat, 19344636777706048543569526062075715177534766539829107618625253479483021102683nat, group_prime());
    }
    assert(pow_mod_by_squaring(2, 28565489801649935693578nat, group_prime()) == 10266206979066566568418736806902932940173758150940115838581320450434574841339nat) by {
        lemma_square_step(28565489801649935693578nat, 19344636777706048543569526062075715177534766539829107618625253479483021102683nat);
        lemma_mod_by_quotient(374214972061377452974063185979656378505814790453920668941076668785695646550185974285114012363452675796964881218905203957658095769187233353951101229798489nat, 17096620055455920812427559632155121754679372682628617104429003914175778416050nat, 10266206979066566568418736806902932940173758150940115838581320450434574841339nat, group_prime());
    }
    assert(pow_mod_by_squaring(2, 57130979603299871387156nat, group_prime()) == 14767089834567737518417804953084795779682147216200831242644290930492647957799nat) by {
        lemma_square_step(57130979603299871387156nat, 10266206979066566568418736806902932940173758150940115838581320450434574841339nat);
        lemma_mod_by_quotient(105395005737035078779541464710813177420398605227057402221380582945100400143911750925730796156629524646749329823406825374071719039004587457824817023312921nat, 4815142373654532951556651743234804109881526639500752647262607657130461035134nat, 14767089834567737518417804953084795779682147216200831242644290930492647957799nat, group_prime());
    }
    assert(pow_mod_by_squaring(2, 114261959206599742774312nat, group_prime()) == 18799793248967179277901366221884594029224566520846307236485231846710997314906nat) by {
        lemma_square_step(114261959206599742774312nat, 14767089834567737518417804953084795779682147216200831242644290930492647957799nat);
        lemma_mod_by_quotient(218066942182193809429538236464405876814540177593110812872573716463563857040638606540120425040330612492683919346578805800750155634744538936463525284924401nat, 9962743170341547967789176164894772766672600333766841051452357179955156745265nat, 18799793248967179277901366221884594029224566520846307236485231846710997314906nat, group_prime());
    }
    assert(pow_mod_by_squaring(2, 228523918413199485548624nat, group_prime()) == 18906656330078781086006133012476865269856927505678473913094702399455004011041nat) by {
        lemma_square_step(228523918413199485548624nat, 18799793248967179277901366221884594029224566520846307236485231846710997314906nat);
        lemma_mod_by_quotient(353432226203911930421526676371924329523075828235868889493223404336287726372660149973766607682855166440199154960277338696065601715363280574755541729788836nat, 16147126485818864671875845256703798827994133545055642951681055763253632315365nat, 18906656330078781086006133012476865269856927505678473913094702399455004011041nat, group_prime());
    }
    assert(pow_mod_by_squaring(2, 457047836826398971097248nat, group_prime()) == 19076336296562163373867754472596232884888164034723294240049045252988087684996nat) by {
        lemma_square_step(457047836826398971097248nat, 18906656330078781086006133012476865269856927505678473913094702399455004011041nat);
        lemma_mod_by_quotient(357461653583708042736850464737847693192562068844686124519617124738583453412852614391356011312125624215741308548017132987475900090873439024781398449903681nat, 16331217433794421304397462325312173545239209661656136966486907627704331615195nat, 19076336296562163373867754472596232884888164034723294240049045252988087684996nat, group_prime());
    }
    assert(pow_mod_by_squaring(2, 914095673652797942194497nat, group_prime()) == 736457823736055280732241560444775249044414665691257853794795081140073783257nat) by {
        lemma_square_double_step(914095673652797942194497nat, 19076336296562163373867754472596232884888164034723294240049045252988087684996nat);
        lemma_mod_by_quotient(363906606499535034762706552758126086161975813468822832788131174757784671434852390354513816727599010217537124139405195926913747970073768151224754523520016nat, 16625665597293139866199355216207264292710696033340156421480698191628094211712nat, 11312350347787665251489323652851025168870362911494540758241916487892649995920nat, group_prime());
        lemma_mod_by_quotient(22624700695575330502978647305702050337740725822989081516483832975785299991840nat, 1nat, 736457823736055280732241560444775249044414665691257853794795081140073783257nat, group_prime());
    }
}

proof fn lemma_fermat_steps_10()
    requires
        pow_mod_by_squaring(2, 914095673652797942194497nat, group_prime()) == 736457823736055280732241560444775249044414665691257853794795081140073783257nat,
    ensures
        pow_mod_by_squaring(2, 234008492455116273201791254nat, group_prime()) == 6033564693319696651913579825878971185167247809422994639083281393134423953560nat,
{
    assert(pow_mod_by_squaring(2, 1828191347305595884388994nat, group_prime()) == 9418705822916782921632733698497977414983231114900121120023898776076634463904nat) by {
        lemma_square_step(1828191347305595884388994nat, 736457823736055280732241560444775249044414665691257853794795081140073783257nat);
        lemma_mod_by_quotient(542370126142046668853218307324383117408874553796025281274870964977119452372047535340486656778185188470963094662680140166098803281068182389929013528049nat, 24779061952014568183305673264157137856014012756083585156065104714350043815nat, 9418705822916782921632733698497977414983231114900121120023898776076634463904nat, group_prime());
    }
    assert(pow_mod_by_squaring(2, 3656382694611191768777988nat, group_prime()) == 144579239063311114004665228332271648736531711987055699229440431757055513202nat) by {
        lemma_square_step(3656382694611191768777988nat, 9418705822916782921632733698497977414983231114900121120023898776076634463904nat);
        lemma_mod_by_quotient(88712019378646512967825288189034436205502707895978284445274574058554159952889219460019946720027535297463590221320275408569697220739316404065853478921216nat, 4052952989332031153472731091625122424797937793661297608859878131167629619458nat, 144579239063311114004665228332271648736531711987055699229440431757055513202nat, group_prime());
    }
    assert(pow_mod_by_squaring(2, 7312765389222383537555976nat, group_prime()) == 10914734612286364844911110534044402250376107330005939054482867119458804579643nat) by {
        lemma_square_step(7312765389222383537555976nat, 144579239063311114004665228332271648736531711987055699229440431757055513202nat);
        lemma_mod_by_quotient(20903156368126066370081779480593865836788857656556642163854181120455680427448744674551035952786661040753833259591664499671724449119190193543596292804nat, 954994719791756780912978422555446163151212435952994153843956932363310767nat, 10914734612286364844911110534044402250376107330005939054482867119458804579643nat, group_prime());
    }
    assert(pow_mod_by_squaring(2, 14625530778444767075111953nat, group_prime()) == 12633031089349544715936633500929456829422778547276956168977457230791088550498nat) by {
        lemma_square_double_step(14625530778444767075111953nat, 10914734612286364844911110534044402250376107330005939054482867119458804579643nat);
        lemma_mod_by_quotient(119131431656641983112904625242985447562788463669536540032926146792733006827551874731354233121462924568473941328410343403782337607766944559335389930007449nat, 5442713348631229588918456715105121041247606964225005514629392644511307853400nat, 6316515544674772357968316750464728414711389273638478084488728615395544275249nat, group_prime());
        lemma_mod_by_quotient(12633031089349544715936633500929456829422778547276956168977457230791088550498nat, 0nat, 12633031089349544715936633500929456829422778547276956168977457230791088550498nat, group_prime());
    }
    assert(pow_mod_by_squaring(2, 29251061556889534150223906nat, group_prime()) == 9385251627022585864413687244061601421376420243324236408014928403555189566883nat) by {
        lemma_square_step(29251061556889534150223906nat, 12633031089349544715936633500929456829422778547276956168977457230791088550498nat);
        lemma_mod_by_quotient(159593474504472144447968511050920698850123623385178235442943394512491279612322650014060667714776806024319824900542766757826984490462801495809026696048004nat, 7291287630484038930574398876676812832421163749669551959445057847519368596887nat, 9385251627022585864413687244061601421376420243324236408014928403555189566883nat, group_prime());
    }
    assert(pow_mod_by_squaring(2, 58502123113779068300447813nat, group_prime()) == 3232636410185397775645080822961830619266062994680922596351306874896557987453nat) by {
        lemma_square_double_step(58502123113779068300447813nat, 9385251627022585864413687244061601421376420243324236408014928403555189566883nat);
        lemma_mod_by_quotient(88082948102530095170472029338067895120234078746739163295029804191549079100526951530165397133305268382262850850732368272221145949027885210873733130335689nat, 4024212844232226860201590941834213595191577012246730877404776020425780464737nat, 12560439641012336498945743284109552853981187075989373129520172384770892098018nat, group_prime());
        lemma_mod_by_quotient(25120879282024672997891486568219105707962374151978746259040344769541784196036nat, 1nat, 3232636410185397775645080822961830619266062994680922596351306874896557987453nat, group_prime());
    }
    assert(pow_mod_by_squaring(2, 117004246227558136600895627nat, group_prime()) == 19183506410622811859843039856694538193761508969087338139177461145680661855331nat) by {
        lemma_square_double_step(117004246227558136600895627nat, 3232636410185397775645080822961830619266062994680922596351306874896557987453nat);
        lemma_mod_by_quotient(10449938160456335299800971346612499124145359309549086517088255325152208076879863312607483728863737660931954558304558741475650220643505528709773705427209nat, 477422432748171715105912387697893669075971434527569728328135255645485747244nat, 20535874641231043541044722800975906641228910063192580900933249520162944031957nat, group_prime());
        lemma_mod_by_quotient(41071749282462087082089445601951813282457820126385161801866499040325888063914nat, 1nat, 19183506410622811859843039856694538193761508969087338139177461145680661855331nat, group_prime());
    }
    assert(pow_mod_by_squaring(2, 234008492455116273201791254nat, group_prime()) == 6033564693319696651913579825878971185167247809422994639083281393134423953560nat) by {
        lemma_square_step(234008492455116273201791254nat, 19183506410622811859843039856694538193761508969087338139177461145680661855331nat);
        lemma_mod_by_quotient(368006918206406518711433847982331456026456212694700648787054301772904967012470018900487671980207833265487901112596080175170086627891027789292639173119561nat, 16812995011119537782053550883958451153392938722452971921080039021269044562247nat, 6033564693319696651913579825878971185167247809422994639083281393134423953560nat, group_prime());
    }
}

proof fn lemma_fermat_steps_11()
    requires
        pow_mod_by_squaring(2, 234008492455116273201791254nat, group_prime()) == 6033564693319696651913579825878971185167247809422994639083281393134423953560nat,
    ensures
        pow_mod_by_squaring(2, 59906174068509765939658561242nat, group_prime()) == 21571470755199977324700584621308656458319062861796419162425799638531536846567nat,
{
    assert(pow_mod_by_squaring(2, 468016984910232546403582509nat, group_prime()) == 15373634273327641365122058855653939637640072741459078633209799947232952746768nat) by {
        lemma_square_double_step(468016984910232546403582509nat, 6033564693319696651913579825878971185167247809422994639083281393134423953560nat);
        lemma_mod_by_quotient(36403902908474005112014378198565649091322911902532337621344428300694085303339178884909778183071710455263631921275616767940540406908158017450701036673600nat, 1663171553862376111447554327713620295808231776284708210391177381031155113352nat, 7686817136663820682561029427826969818820036370729539316604899973616476373384nat, group_prime());
        lemma_mod_by_quotient(15373634273327641365122058855653939637640072741459078633209799947232952746768nat, 0nat, 15373634273327641365122058855653939637640072741459078633209799947232952746768nat, group_prime());
    }
    assert(pow_mod_by_squaring(2, 936033969820465092807165019nat, group_prime()) == 17084043949916440667018622572875506425047607796184058109513732408725787490119nat) by {
        lemma_square_double_step(936033969820465092807165019nat, 15373634273327641365122058855653939637640072741459078633209799947232952746768nat);
        lemma_mod_by_quotient(236348630770034315569293330567348178766561734137868265500700803578117856074046183671738048941788500360643118581728913479114646973193128624818755934445824nat, 10797971867998277262443879404671826627732596897129673189272363144787561208831nat, 19486143410877857944632514159066390756871959476740940886101385151685506849351nat, group_prime());
        lemma_mod_by_quotient(38972286821755715889265028318132781513743918953481881772202770303371013698702nat, 1nat, 17084043949916440667018622572875506425047607796184058109513732408725787490119nat, group_prime());
    }
    assert(pow_mod_by_squaring(2, 1872067939640930185614330038nat, group_prime()) == 17669831369334562346290382620338019480956496815671056668510673371157091044059nat) by {
        lemma_square_step(1872067939640930185614330038nat, 17084043949916440667018622572875506425047607796184058109513732408725787490119nat);
        lemma_mod_by_quotient(291864557682676539865833909169062751997505329247134300410823890376217057472953093045655038867362815004807797963315962813157518224458987633917237522634161nat, 13334307344431941546772592508154916103833491731859981839841537698307139875194nat, 17669831369334562346290382620338019480956496815671056668510673371157091044059nat, group_prime());
    }
    assert(pow_mod_by_squaring(2, 3744135879281860371228660077nat, group_prime()) == 4050657868351693184278068814441392480293114915994610327670132636373295491611nat) by {
        lemma_square_double_step(3744135879281860371228660077nat, 17669831369334562346290382620338019480956496815671056668510673371157091044059nat);
        lemma_mod_by_quotient(312222940620719734643848019179277633913356563403065485975534570728819381232959109475645485595149766333597745201285713277376695537895715701901546679195481nat, 14264413203419628945249994689308698980810010488625202702142597502763106349848nat, 12969450370095484203262237279849333784494713036646216995179585265509260850097nat, group_prime());
        lemma_mod_by_quotient(25938900740190968406524474559698667568989426073292433990359170531018521700194nat, 1nat, 4050657868351693184278068814441392480293114915994610327670132636373295491611nat, group_prime());
    }
    assert(pow_mod_by_squaring(2, 7488271758563720742457320155nat, group_prime()) == 2377690698722146713607511227185269484306711111247699163458848118425521304737nat) by {
        lemma_square_double_step(7488271758563720742457320155nat, 4050657868351693184278068814441392480293114915994610327670132636373295491611nat);
        lemma_mod_by_quotient(16407829166439482952159554781992564619872001032544181978112312805985298921435319421875459237986685499744654413789191752420308413333740157249098171375321nat, 749618380173827468105270872818045503251120817681158421313023017026901969267nat, 12132966785280710967926958486221272286501511134272761413073943006535373756660nat, group_prime());
        lemma_mod_by_quotient(24265933570561421935853916972442544573003022268545522826147886013070747513320nat, 1nat, 2377690698722146713607511227185269484306711111247699163458848118425521304737nat, group_prime());
    }
    assert(pow_mod_by_squaring(2, 14976543517127441484914640310nat, group_prime()) == 12760019038451921167973867062077367775451091979178602867609634345339660685324nat) by {
        lemma_square_step(14976543517127441484914640310nat, 2377690698722146713607511227185269484306711111247699163458848118425521304737nat);
        lemma_mod_by_quotient(5653413058789810251593194811592088791932595067752540087881155318232163697291870478934554655440788707660577070642904271440686894138022250717078818639169nat, 258285376852397487934124186733653465519742199276162991599524697614967799715nat, 12760019038451921167973867062077367775451091979178602867609634345339660685324nat, group_prime());
    }
    assert(pow_mod_by_squaring(2, 29953087034254882969829280621nat, group_prime()) == 21206839916541855392186434479648415674587610252268901363165080723975899311868nat) by {
        lemma_square_double_step(29953087034254882969829280621nat, 12760019038451921167973867062077367775451091979178602867609634345339660685324nat);
        lemma_mod_by_quotient(162818085861655490858247711939239545455709433417755450963540170529811971636556908095426164232369912026062644572832915841821819111770865086714769348984976nat, 7438609248581215198264991113690370730618122434982913851161997836557577793374nat, 10603419958270927696093217239824207837293805126134450681582540361987949655934nat, group_prime());
        lemma_mod_by_quotient(21206839916541855392186434479648415674587610252268901363165080723975899311868nat, 0nat, 21206839916541855392186434479648415674587610252268901363165080723975899311868nat, group_prime());
    }
    assert(pow_mod_by_squaring(2, 59906174068509765939658561242nat, group_prime()) == 21571470755199977324700584621308656458319062861796419162425799638531536846567nat) by {
        lemma_square_step(59906174068509765939658561242nat, 21206839916541855392186434479648415674587610252268901363165080723975899311868nat);
        lemma_mod_by_quotient(449730059245832968175731833739494937068148374284000937489199653065767385909623607739924241059461080764409730743602307995124541610077123308032435925649424nat, 20546649718714585171629357702152927232592792535598720231532004055738914225679nat, 21571470755199977324700584621308656458319062861796419162425799638531536846567nat, group_prime());
    }
}

proof fn lemma_fermat_steps_12()
    requires
        pow_mod_by_squaring(2, 59906174068509765939658561242nat, group_prime()) == 21571470755199977324700584621308656458319062861796419162425799638531536846567nat,
    ensures
        pow_mod_by_squaring(2, 15335980561538500080552591677958nat, group_prime()) == 2973527752324329654375056809363712133538410202541173862847309957960096002892nat,
{
    assert(pow_mod_by_squaring(2, 119812348137019531879317122484nat, group_prime()) == 4688507592158915731680415771748432756421497684211829727049551490950080767610nat) by {
        lemma_square_step(119812348137019531879317122484nat, 21571470755199977324700584621308656458319062861796419162425799638531536846567nat);
        lemma_mod_by_quotient(465328350542447880047923591510319268290043617769250246487395717707389408768232419534595910852980884808974007556136854400377612871694311704750390499685489nat, 21259283043735077465487685888134990079889621391585748801232818856909644956113nat, 4688507592158915731680415771748432756421497684211829727049551490950080767610nat, group_prime());
    }
    assert(pow_mod_by_squaring(2, 239624696274039063758634244968nat, group_prime()) == 201993958098197515912046475168926273238054094523157192133544702482917662711nat) by {
        lemma_square_step(239624696274039063758634244968nat, 4688507592158915731680415771748432756421497684211829727049551490950080767610nat);
        lemma_mod_by_quotient(21982103441731793692968982736893654086132985590501314263733408697312060025882784714098348478454964015880195159244366939996929421153491942782406825112100nat, 1004288172899126431365319787798108500401548435033651843876657129899357839083nat, 201993958098197515912046475168926273238054094523157192133544702482917662711nat, group_prime());
    }
    assert(pow_mod_by_squaring(2, 479249392548078127517268489936nat, group_prime()) == 19288463421558099393936312761716096522695248214559398248692828632923234598767nat) by {
        lemma_square_step(479249392548078127517268489936nat, 201993958098197515912046475168926273238054094523157192133544702482917662711nat);
        lemma_mod_by_quotient(40801559108176373819327246929936893767112348910115967937784841821119564898318904680363839109842511302476248685240830011430729971763483202255159869521nat, 1864085634789367964424167586635851774914834164725553026676288909324116238nat, 19288463421558099393936312761716096522695248214559398248692828632923234598767nat, group_prime());
    }
    assert(pow_mod_by_squaring(2, 958498785096156255034536979872nat, group_prime()) == 3092767247612959391221845386183974299361868628626554005313091936301788878554nat) by {
        lemma_square_step(958498785096156255034536979872nat, 19288463421558099393936312761716096522695248214559398248692828632923234598767nat);
        lemma_mod_by_quotient(372044821164784782731757150749464913547645678837132706754553408416929042412305790306987023397012960193644713035862523324960763673441981117848463477920289nat, 16997473179697121638871069709033958120891564111848181743832941330374964908545nat, 3092767247612959391221845386183974299361868628626554005313091936301788878554nat, group_prime());
    }
    assert(pow_mod_by_squaring(2, 1916997570192312510069073959744nat, group_prime()) == 637778320671001528170737995909699960269045226359464220115611816023614968688nat) by {
        lemma_square_step(1916997570192312510069073959744nat, 3092767247612959391221845386183974299361868628626554005313091936301788878554nat);
        lemma_mod_by_quotient(9565209247907440467199684657862779365384513367030147705613738002862200599417784427229080723675663526872598076492197189446138042130558008306880961130916nat, 437002152430140374998798637649487973006275044660414722699603596548469750316nat, 637778320671001528170737995909699960269045226359464220115611816023614968688nat, group_prime());
    }
    assert(pow_mod_by_squaring(2, 3833995140384625020138147919489nat, group_prime()) == 15902568584039698844021669631055088334057450506582785076861267905303690356016nat) by {
        lemma_square_double_step(3833995140384625020138147919489nat, 637778320671001528170737995909699960269045226359464220115611816023614968688nat);
        lemma_mod_by_quotient(406761186317922855158574955190376321044201134914515609150889860248562804347504430947023964973025173145762548688082371579790881550163301562135220441344nat, 18583546824640227410934165732973290737637903071565183339202298202598203992nat, 7951284292019849422010834815527544167028725253291392538430633952651845178008nat, group_prime());
        lemma_mod_by_quotient(15902568584039698844021669631055088334057450506582785076861267905303690356016nat, 0nat, 15902568584039698844021669631055088334057450506582785076861267905303690356016nat, group_prime());
    }
    assert(pow_mod_by_squaring(2, 7667990280769250040276295838979nat, group_prime()) == 6871823558065474812233917957283567755228616091416778809717423779906001333140nat) by {
        lemma_square_double_step(7667990280769250040276295838979nat, 15902568584039698844021669631055088334057450506582785076861267905303690356016nat);
        lemma_mod_by_quotient(252891687570086392235521815378303693883659875941506563195179044645389642746646634468859032144425446743456284763968205067320709772913436765297124827392256nat, 11553768342704607078366647903281606147800049436119148153625644142613025404442nat, 3435911779032737406116958978641783877614308045708389404858711889953000666570nat, group_prime());
        lemma_mod_by_quotient(6871823558065474812233917957283567755228616091416778809717423779906001333140nat, 0nat, 6871823558065474812233917957283567755228616091416778809717423779906001333140nat, group_prime());
    }
    assert(pow_mod_by_squaring(2, 15335980561538500080552591677958nat, group_prime()) == 2973527752324329654375056809363712133538410202541173862847309957960096002892nat) by {
        lemma_square_step(15335980561538500080552591677958nat, 6871823558065474812233917957283567755228616091416778809717423779906001333140nat);
        lemma_mod_by_quotient(47221959013183642078333615002037983985946212335136832782422879479967070761561175680016809764190053262625615084436210726611617502741511887771457262259600nat, 2157412054027321177251970026440177870844261592869825526677586876656141886876nat, 2973527752324329654375056809363712133538410202541173862847309957960096002892nat, group_prime());
    }
}

proof fn lemma_fermat_steps_13()
    requires
        pow_mod_by_squaring(2, 15335980561538500080552591677958nat, group_prime()) == 2973527752324329654375056809363712133538410202541173862847309957960096002892nat,
    ensures
        pow_mod_by_squaring(2, 3926011023753856020621463469557253nat, group_prime()) == 693365985498953406413287944635031120233918186373182795072771143897848529232nat,
{
    assert(pow_mod_by_squaring(2, 30671961123077000161105183355916nat, group_prime()) == 8244560619163286041277815860358435973240779439841246969840670939791228665384nat) by {
        lemma_square_step(30671961123077000161105183355916nat, 2973527752324329654375056809363712133538410202541173862847309957960096002892nat);
        lemma_mod_by_quotient(8841867293842979960266789003146186788194406433534559466598816011542155589266915214710883209254620324522139620223528364777993273582369126057195272363664nat, 403955097977218093507803469758358579543783422243152604173428103641030275160nat, 8244560619163286041277815860358435973240779439841246969840670939791228665384nat, group_prime());
    }
    assert(pow_mod_by_squaring(2, 61343922246154000322210366711832nat, group_prime()) == 1788924074751899051141542438430393475686344012901927749360950253724675779020nat) by {
        lemma_square_step(61343922246154000322210366711832nat, 8244560619163286041277815860358435973240779439841246969840670939791228665384nat);
        lemma_mod_by_quotient(67972779803058106492129640492565709483834793303471684384224827043110720325033347521201300788927473108363991269365989323241878054002210952077345839867456nat, 3105447074991558453641194048426076587614644962493216650236429822282494003692nat, 1788924074751899051141542438430393475686344012901927749360950253724675779020nat, group_prime());
    }
    assert(pow_mod_by_squaring(2, 122687844492308000644420733423664nat, group_prime()) == 14638361087130035960124413376198198479646346708793507301859140798159847038588nat) by {
        lemma_square_step(122687844492308000644420733423664nat, 1788924074751899051141542438430393475686344012901927749360950253724675779020nat);
        lemma_mod_by_quotient(3200249345226938104175077082309139175179780785179179305482982764138146254411232944372564183963993636696432724959660924396567873045637168818243872160400nat, 146208599930343346425224447459167038303360662607365235591561734170899807564nat, 14638361087130035960124413376198198479646346708793507301859140798159847038588nat, group_prime());
    }
    assert(pow_mod_by_squaring(2, 245375688984616001288841466847328nat, group_prime()) == 9012890369002300165857834208735702989509537756809009434284211331457489973931nat) by {
        lemma_square_step(245375688984616001288841466847328nat, 14638361087130035960124413376198198479646346708793507301859140798159847038588nat);
        lemma_mod_by_quotient(214281615317202848246208702240609479273552312834746536781093048355152080079212012915436647650563815777319584591245540427996352490582413302193353561033744nat, 9789804351672780194783032364045395298436152079596597807008418018414567053811nat, 9012890369002300165857834208735702989509537756809009434284211331457489973931nat, group_prime());
    }
    assert(pow_mod_by_squaring(2, 490751377969232002577682933694656nat, group_prime()) == 340209775469943829715582256042978168593366054818709975473551401044503830288nat) by {
        lemma_square_step(490751377969232002577682933694656nat, 9012890369002300165857834208735702989509537756809009434284211331457489973931nat);
        lemma_mod_by_quotient(81232192803654418446414358416988479827371394410182510664408946775368554377120550136258840736372479544695240513814997276342025360137466700569387059592761nat, 3711224938396731814637357687441626025038705629857721797909655695416178210831nat, 340209775469943829715582256042978168593366054818709975473551401044503830288nat, group_prime());
    }
    assert(pow_mod_by_squaring(2, 981502755938464005155365867389313nat, group_prime()) == 495550608081772620157406608954995028929128855139733831319146619485895522549nat) by {
        lemma_square_double_step(981502755938464005155365867389313nat, 340209775469943829715582256042978168593366054818709975473551401044503830288nat);
        lemma_mod_by_quotient(115742691325309594361200309732496158384771327392928314375907393887268600297386677753668075106350437993322873744724826100197948967477857886303106162944nat, 5287893231220515206350683736857737874507921684593288607180671829340132366nat, 11191896739960523921201906177106135058812720006218778747004092257065560865566nat, group_prime());
        lemma_mod_by_quotient(22383793479921047842403812354212270117625440012437557494008184514131121731132nat, 1nat, 495550608081772620157406608954995028929128855139733831319146619485895522549nat, group_prime());
    }
    assert(pow_mod_by_squaring(2, 1963005511876928010310731734778626nat, group_prime()) == 8059567157005937027035181308324676916591898452361908799532007586181714149706nat) by {
        lemma_square_step(1963005511876928010310731734778626nat, 495550608081772620157406608954995028929128855139733831319146619485895522549nat);
        lemma_mod_by_quotient(245570405170214607280198562949139564109522437897410092974705697878255093470697386849708552893896707802743084459939531182312298091597682495165767457401nat, 11219283640449629973836502192124836923742306624685002205417181206276200665nat, 8059567157005937027035181308324676916591898452361908799532007586181714149706nat, group_prime());
    }
    assert(pow_mod_by_squaring(2, 3926011023753856020621463469557253nat, group_prime()) == 693365985498953406413287944635031120233918186373182795072771143897848529232nat) by {
        lemma_square_double_step(3926011023753856020621463469557253nat, 8059567157005937027035181308324676916591898452361908799532007586181714149706nat);
        lemma_mod_by_quotient(64956622758288762385205971960517730012956261865565940156572427236040856889106959276524815740349021330941338019657813709341703334475283371635374579886436nat, 2967649031428644735856575437641093301541468078178529759392888468017957789540nat, 346682992749476703206643972317515560116959093186591397536385571948924264616nat, group_prime());
        lemma_mod_by_quotient(693365985498953406413287944635031120233918186373182795072771143897848529232nat, 0nat, 693365985498953406413287944635031120233918186373182795072771143897848529232nat, group_prime());
    }
}

proof fn lemma_fermat_steps_14()
    requires
        pow_mod_by_squaring(2, 3926011023753856020621463469557253nat, group_prime()) == 693365985498953406413287944635031120233918186373182795072771143897848529232nat,
    ensures
        pow_mod_by_squaring(2, 1005058822080987141279094648206656865nat, group_prime()) == 10276848206805983511628145668314298245377861273371275719016405087264765328836nat,
{
    assert(pow_mod_by_squaring(2, 7852022047507712041242926939114506nat, group_prime()) == 2091734309449240306701316583423207268434236342738306458980577771011024568633nat) by {
        lemma_square_step(7852022047507712041242926939114506nat, 693365985498953406413287944635031120233918186373182795072771143897848529232nat);
        lemma_mod_by_quotient(480756389846934865462663927412411327812871561302177472732105123347243453956366793948637620828628318718884696957023082939075304112295085796065558509824nat, 21964138129400095167313026658773636456977583672373244535914017917590434177nat, 2091734309449240306701316583423207268434236342738306458980577771011024568633nat, group_prime());
    }
    assert(pow_mod_by_squaring(2, 15704044095015424082485853878229013nat, group_prime()) == 5688273573401470487466380435215397607744134858858729480675316625387846847388nat) by {
        lemma_square_double_step(15704044095015424082485853878229013nat, 2091734309449240306701316583423207268434236342738306458980577771011024568633nat);
        lemma_mod_by_quotient(4375352421327090206227469879199059609975807008370838648565335895904293501494642636087418978654194401255222316777545742409765598700888855199543727488689nat, 199895096511208809890450999444265816297401777232223477304593602662801253765nat, 2844136786700735243733190217607698803872067429429364740337658312693923423694nat, group_prime());
        lemma_mod_by_quotient(5688273573401470487466380435215397607744134858858729480675316625387846847388nat, 0nat, 5688273573401470487466380435215397607744134858858729480675316625387846847388nat, group_prime());
    }
    assert(pow_mod_by_squaring(2, 31408088190030848164971707756458027nat, group_prime()) == 2427567169120155358797346356319931776186489033962873532550490036694668401136nat) by {
        lemma_square_double_step(31408088190030848164971707756458027nat, 5688273573401470487466380435215397607744134858858729480675316625387846847388nat);
        lemma_mod_by_quotient(32356456245857534257550057663506462679760670892099440961963950382586705006494359203639115323923000706436687008011007689487502669620333628028810562422544nat, 1478257365623730951997385418286188299287611267433982433555652040948717388072nat, 1213783584560077679398673178159965888093244516981436766275245018347334200568nat, group_prime());
        lemma_mod_by_quotient(2427567169120155358797346356319931776186489033962873532550490036694668401136nat, 0nat, 2427567169120155358797346356319931776186489033962873532550490036694668401136nat, group_prime());
    }
    assert(pow_mod_by_squaring(2, 62816176380061696329943415512916054nat, group_prime()) == 8293771278418413717831479486501139796433728987057721423772183949731292385450nat) by {
        lemma_square_step(62816176380061696329943415512916054nat, 2427567169120155358797346356319931776186489033962873532550490036694668401136nat);
        lemma_mod_by_quotient(5893082360590044969406143988095803118803348742596794042239176908650178755399186132826117614044727844369947844068066701417323627485402349328846606090496nat, 269235058980997481798425680828621199707184518684851048683181953817150906362nat, 8293771278418413717831479486501139796433728987057721423772183949731292385450nat, group_prime());
    }
    assert(pow_mod_by_squaring(2, 125632352760123392659886831025832108nat, group_prime()) == 16423250624099521423473980519194736902731209714265917644413308917948549928803nat) by {
        lemma_square_step(125632352760123392659886831025832108nat, 8293771278418413717831479486501139796433728987057721423772183949731292385450nat);
        lemma_mod_by_quotient(68786642018718208634718912058048244850653401196987846241461807862183829555673727133142072805250133888473045515872853458757096076375610837117151371702500nat, 3142629694922516532920403682322507659677212483186246928736936231069128423159nat, 16423250624099521423473980519194736902731209714265917644413308917948549928803nat, group_prime());
    }
    assert(pow_mod_by_squaring(2, 251264705520246785319773662051664216nat, group_prime()) == 16341698911148018352676717659057898410514466751722618855654282113997841707842nat) by {
        lemma_square_step(251264705520246785319773662051664216nat, 16423250624099521423473980519194736902731209714265917644413308917948549928803nat);
        lemma_mod_by_quotient(269723161061985319936350742132987900991306070082102144823125211706968763175215833387176426412450194411552773900502483666907124177751737040134176369012809nat, 12322741603393055124442017413859437729801789797208625611324265085626705846849nat, 16341698911148018352676717659057898410514466751722618855654282113997841707842nat, group_prime());
    }
    assert(pow_mod_by_squaring(2, 502529411040493570639547324103328432nat, group_prime()) == 10062832524542729922058332407943943641830966166588009883774465190526823888005nat) by {
        lemma_square_step(502529411040493570639547324103328432nat, 16341698911148018352676717659057898410514466751722618855654282113997841707842nat);
        lemma_mod_by_quotient(267051123302616328626512171240890984651889827313438799571174540915544992240103190677632485415400398927786339360887814702165545853908472934201039284296964nat, 12200665209457991883650564259105572970261270947566863605317871021422098052873nat, 10062832524542729922058332407943943641830966166588009883774465190526823888005nat, group_prime());
    }
    assert(pow_mod_by_squaring(2, 1005058822080987141279094648206656865nat, group_prime()) == 10276848206805983511628145668314298245377861273371275719016405087264765328836nat) by {
        lemma_square_double_step(1005058822080987141279094648206656865nat, 10062832524542729922058332407943943641830966166588009883774465190526823888005nat);
        lemma_mod_by_quotient(101260598416995011199167700528020547666109686598994027002603917506809039873251383047213750425398259373649960646893753654492599932148205500872704782880025nat, 4626255246247916589978721448792470166301840767825425425443947428388873174929nat, 5138424103402991755814072834157149122688930636685637859508202543632382664418nat, group_prime());
        lemma_mod_by_quotient(10276848206805983511628145668314298245377861273371275719016405087264765328836nat, 0nat, 10276848206805983511628145668314298245377861273371275719016405087264765328836nat, group_prime());
    }
}

proof fn lemma_fermat_steps_15()
    requires
        pow_mod_by_squaring(2, 1005058822080987141279094648206656865nat, group_prime()) == 10276848206805983511628145668314298245377861273371275719016405087264765328836nat,
    ensures
        pow_mod_by_squaring(2, 257295058452732708167448229940904157558nat, group_prime()) == 11216089655095708384865298519242258475753193047022526250572978146463378921544nat,
{
    assert(pow_mod_by_squaring(2, 2010117644161974282558189296413313730nat, group_prime()) == 1089654063569628323307970504787868782171264314973265997890692776354292842072nat) by {
        lemma_square_step(2010117644161974282558189296413313730nat, 10276848206805983511628145668314298245377861273371275719016405087264765328836nat);
        lemma_mod_by_quotient(105613609065731358847732187322061371158050208921968533578062621183370000803340700907791366718135536879122234598179705245003879231746377056817635213114896nat, 4825129622515771065588134011613405787195771371500845284533130903205048827528nat, 1089654063569628323307970504787868782171264314973265997890692776354292842072nat, group_prime());
    }
    assert(pow_mod_by_squaring(2, 4020235288323948565116378592826627461nat, group_prime()) == 21553580500142294929450943050419259261113660265532765940698911371598370495046nat) by {
        lemma_square_double_step(4020235288323948565116378592826627461nat, 1089654063569628323307970504787868782171264314973265997890692776354292842072nat);
        lemma_mod_by_quotient(1187345978253803603109291748367174116653960407398895951501654416420298863015317584742307546353719285789482757504794155404055577737601961687455133253184nat, 54245833491796894780057120889988811038186887630406756456132393731767558267nat, 10776790250071147464725471525209629630556830132766382970349455685799185247523nat, group_prime());
        lemma_mod_by_quotient(21553580500142294929450943050419259261113660265532765940698911371598370495046nat, 0nat, 21553580500142294929450943050419259261113660265532765940698911371598370495046nat, group_prime());
    }
    assert(pow_mod_by_squaring(2, 8040470576647897130232757185653254923nat, group_prime()) == 11116320324684151689327093816964052754388043314024060184832576357096837032105nat) by {
        lemma_square_double_step(8040470576647897130232757185653254923nat, 21553580500142294929450943050419259261113660265532765940698911371598370495046nat);
        lemma_mod_by_quotient(464556832376114180433345691523201575329455845833930640277923096215268406930942743444520805647211229316697944718303286518252410593955144385473595110542116nat, 21224034980615021783948686031654472376977047939645944977582770666470565997684nat, 16502281598261713455786749781110663921542177235660941923760807125871031620344nat, group_prime());
        lemma_mod_by_quotient(33004563196523426911573499562221327843084354471321883847521614251742063240688nat, 1nat, 11116320324684151689327093816964052754388043314024060184832576357096837032105nat, group_prime());
    }
    assert(pow_mod_by_squaring(2, 16080941153295794260465514371306509847nat, group_prime()) == 8411087962290980724050830144995165291963120303732270286916228782848080536656nat) by {
        lemma_square_double_step(16080941153295794260465514371306509847nat, 11116320324684151689327093816964052754388043314024060184832576357096837032105nat);
        lemma_mod_by_quotient(123572577560985963633999477296753587517805789602051426150142155893494626156671887532151096079078014118366009193436679791957560310474723293756904800731025nat, 5645614327496820446559457897673254276292007175784065758796383941945824606159nat, 4205543981145490362025415072497582645981560151866135143458114391424040268328nat, group_prime());
        lemma_mod_by_quotient(8411087962290980724050830144995165291963120303732270286916228782848080536656nat, 0nat, 8411087962290980724050830144995165291963120303732270286916228782848080536656nat, group_prime());
    }
    assert(pow_mod_by_squaring(2, 32161882306591588520931028742613019694nat, group_prime()) == 1149761085344037429481546183361136770338526969028894556933516587318896452246nat) by {
        lemma_square_step(32161882306591588520931028742613019694nat, 8411087962290980724050830144995165291963120303732270286916228782848080536656nat);
        lemma_mod_by_quotient(70746400709396242374560632399120244031648453119310994344159916709988061059365922645015793354864345444041713895211725494311520326227707062638728959662336nat, 3232164460328441264616372767184472325472779011877950248249554640156863292230nat, 1149761085344037429481546183361136770338526969028894556933516587318896452246nat, group_prime());
    }
    assert(pow_mod_by_squaring(2, 64323764613183177041862057485226039389nat, group_prime()) == 2331407297821053169527244772495120071617593487298902843848368005067279107072nat) by {
        lemma_square_double_step(64323764613183177041862057485226039389nat, 1149761085344037429481546183361136770338526969028894556933516587318896452246nat);
        lemma_mod_by_quotient(1321950553371498921520988807402088982764184043103784516130025955208934346756310308380064516501582108546123307137265950342765570067883756059085358444516nat, 60395462582895538003328045782521605733944206829609457011355591032714872060nat, 1165703648910526584763622386247560035808796743649451421924184002533639553536nat, group_prime());
        lemma_mod_by_quotient(2331407297821053169527244772495120071617593487298902843848368005067279107072nat, 0nat, 2331407297821053169527244772495120071617593487298902843848368005067279107072nat, group_prime());
    }
    assert(pow_mod_by_squaring(2, 128647529226366354083724114970452078779nat, group_prime()) == 21712089429425171152427467783231565271980643307408273206735065755607295445334nat) by {
        lemma_square_double_step(128647529226366354083724114970452078779nat, 2331407297821053169527244772495120071617593487298902843848368005067279107072nat);
        lemma_mod_by_quotient(5435459988333264910995721312991190207590431893534372921075751701557805139856536593804128485381562738786721497871110214906479320086234540968405640413184nat, 248327836097175107554356214430547704965069982504332004410080773910564077699nat, 10856044714712585576213733891615782635990321653704136603367532877803647722667nat, group_prime());
        lemma_mod_by_quotient(21712089429425171152427467783231565271980643307408273206735065755607295445334nat, 0nat, 21712089429425171152427467783231565271980643307408273206735065755607295445334nat, group_prime());
    }
    assert(pow_mod_by_squaring(2, 257295058452732708167448229940904157558nat, group_prime()) == 11216089655095708384865298519242258475753193047022526250572978146463378921544nat) by {
        lemma_square_step(257295058452732708167448229940904157558nat, 21712089429425171152427467783231565271980643307408273206735065755607295445334nat);
        lemma_mod_by_quotient(471414827391356254209453112399936764645650501379400847507536774601409351315559992012467286493012917750015784530570270601053944037041803632263421382371556nat, 21537353644675779006377711678519612223379432364712190004014720851635338872964nat, 11216089655095708384865298519242258475753193047022526250572978146463378921544nat, group_prime());
    }
}

proof fn lemma_fermat_steps_16()
    requires
        pow_mod_by_squaring(2, 257295058452732708167448229940904157558nat, group_prime()) == 11216089655095708384865298519242258475753193047022526250572978146463378921544nat,
    ensures
        pow_mod_by_squaring(2, 65867534963899573290866746864871464334942nat, group_prime()) == 8996014313438134288836100257437642801494118059610655865018455924811868595702nat,
{
    assert(pow_mod_by_squaring(2, 514590116905465416334896459881808315116nat, group_prime()) == 15836163869027213154877280250929221750721062420776221629145826003350029242180nat) by {
        lemma_square_step(514590116905465416334896459881808315116nat, 11216089655095708384865298519242258475753193047022526250572978146463378921544nat);
        lemma_mod_by_quotient(125800667151144966675778026675253351560120194189706698202403719895551435013470783227575164350442371672395994056738443944323470366938241179779280507343936nat, 5747408226769822073531530648199680420043275364610630351883922133423314493732nat, 15836163869027213154877280250929221750721062420776221629145826003350029242180nat, group_prime());
    }
    assert(pow_mod_by_squaring(2, 1029180233810930832669792919763616630233nat, group_prime()) == 257802881609455509485931930572023647568235010008909892950430042044433285172nat) by {
        lemma_square_double_step(1029180233810930832669792919763616630233nat, 15836163869027213154877280250929221750721062420776221629145826003350029242180nat);
        lemma_mod_by_quotient(250784086086682953121058913833303565172024638558255633841450762113830418672432151413435860035009785639242147451637257285578232962202977283461105091152400nat, 11457479138690199284683875589178518095332806659976123352638489927910059764058nat, 128901440804727754742965965286011823784117505004454946475215021022216642586nat, group_prime());
        lemma_mod_by_quotient(257802881609455509485931930572023647568235010008909892950430042044433285172nat, 0nat, 257802881609455509485931930572023647568235010008909892950430042044433285172nat, group_prime());
    }
    assert(pow_mod_by_squaring(2, 2058360467621861665339585839527233260466nat, group_prime()) == 14051375476287479710669122660422217383811244951555818618986479974232305049436nat) by {
        lemma_square_step(2058360467621861665339585839527233260466nat, 257802881609455509485931930572023647568235010008909892950430042044433285172nat);
        lemma_mod_by_quotient(66462325766138933745028179385476214094819767057646183121401000334157905780074372766947141092633286667782984015748527804758665034418191279176275069584nat, 3036439523962303592839960249458504001877767366633788374230119781797856556nat, 14051375476287479710669122660422217383811244951555818618986479974232305049436nat, group_prime());
    }
    assert(pow_mod_by_squaring(2, 4116720935243723330679171679054466520933nat, group_prime()) == 10902797109650685918415037904728751169308823115760096283981024980090970125847nat) by {
        lemma_square_double_step(4116720935243723330679171679054466520933nat, 14051375476287479710669122660422217383811244951555818618986479974232305049436nat);
        lemma_mod_by_quotient(197441152775613197288770015986231644782045353647441012400772396780769126827139534491235990584502721753510280033767614341897247633205353625321462403918096nat, 9020420411619005465258411348925257507505908147312756594706800154212253827607nat, 16395519990744980570330721824993013129002567136528959973335031437368098167215nat, group_prime());
        lemma_mod_by_quotient(32791039981489961140661443649986026258005134273057919946670062874736196334430nat, 1nat, 10902797109650685918415037904728751169308823115760096283981024980090970125847nat, group_prime());
    }
    assert(pow_mod_by_squaring(2, 8233441870487446661358343358108933041867nat, group_prime()) == 6768913194319698386217789656085648223627498432674821612609719506293181389473nat) by {
        lemma_square_double_step(8233441870487446661358343358108933041867nat, 10902797109650685918415037904728751169308823115760096283981024980090970125847nat);
        lemma_mod_by_quotient(118870984814207350981748362424027712720099916842955302126481925780319003589110428257193087071742938451896932457315025907413182185189576879916619017467409nat, 5430814410742080211551112955370472866932782310446463536687014175556509450107nat, 14328578033079486804232097700671461656161904794986322637649378700469203799028nat, group_prime());
        lemma_mod_by_quotient(28657156066158973608464195401342923312323809589972645275298757400938407598056nat, 1nat, 6768913194319698386217789656085648223627498432674821612609719506293181389473nat, group_prime());
    }
    assert(pow_mod_by_squaring(2, 16466883740974893322716686716217866083735nat, group_prime()) == 12391545693514459490870872699557340279906678781953904337754723560200005070919nat) by {
        lemma_square_double_step(16466883740974893322716686716217866083735nat, 6768913194319698386217789656085648223627498432674821612609719506293181389473nat);
        lemma_mod_by_quotient(45818185832235302885242415379339992309033259328306703008996938072148775325552172325561065969598755033788819965910753108731540240953697647809318915217729nat, 2093278391532448662309318213612772971340107377049430766606558645962783440566nat, 17139894282676867356558639222407307684301494969625864000221880727422615639751nat, group_prime());
        lemma_mod_by_quotient(34279788565353734713117278444814615368602989939251728000443761454845231279502nat, 1nat, 12391545693514459490870872699557340279906678781953904337754723560200005070919nat, group_prime());
    }
    assert(pow_mod_by_squaring(2, 32933767481949786645433373432435732167471nat, group_prime()) == 2765751129291866307603042771318978669899172718274726550750008884752789540810nat) by {
        lemma_square_double_step(32933767481949786645433373432435732167471nat, 12391545693514459490870872699557340279906678781953904337754723560200005070919nat);
        lemma_mod_by_quotient(153550404674456746825912539406449203454522844076059562738550895529363077146825678062171811265891383679512339644782653440942224029730082331673314219504561nat, 7015200149848934082628630951594817872952971988515996386323056604848076696532nat, 1382875564645933153801521385659489334949586359137363275375004442376394770405nat, group_prime());
        lemma_mod_by_quotient(2765751129291866307603042771318978669899172718274726550750008884752789540810nat, 0nat, 2765751129291866307603042771318978669899172718274726550750008884752789540810nat, group_prime());
    }
    assert(pow_mod_by_squaring(2, 65867534963899573290866746864871464334942nat, group_prime()) == 8996014313438134288836100257437642801494118059610655865018455924811868595702nat) by {
        lemma_square_step(65867534963899573290866746864871464334942nat, 2765751129291866307603042771318978669899172718274726550750008884752789540810nat);
        lemma_mod_by_quotient(7649379309179233780625539598735342133420602754299208990155747644257255736033663783984723021037773905091016230081675517213754154346253204832930655456100nat, 349474343553665725553805238656050143545662683913740411735971850752097398306nat, 8996014313438134288836100257437642801494118059610655865018455924811868595702nat, group_prime());
    }
}

proof fn lemma_fermat_steps_17()
    requires
        pow_mod_by_squaring(2, 65867534963899573290866746864871464334942nat, group_prime()) == 8996014313438134288836100257437642801494118059610655865018455924811868595702nat,
    ensures
        pow_mod_by_squaring(2, 16862088950758290762461887197407094869745157nat, group_prime()) == 6098582856781045330077762744125820639596272669118436694318515889314836693652nat,
{
    assert(pow_mod_by_squaring(2, 131735069927799146581733493729742928669884nat, group_prime()) == 4021567101128406090653476153146189940403042843015501111543327895974483635891nat) by {
        lemma_square_step(131735069927799146581733493729742928669884nat, 8996014313438134288836100257437642801494118059610655865018455924811868595702nat);
        lemma_mod_by_quotient(80928273527583786635963229709077954021122188006087688809316158955757455427244977805924572877497437198333539246407729745146141531319656293983137532872804nat, 3697339891622984398339594234777172235626263733462087900098419107521352797511nat, 4021567101128406090653476153146189940403042843015501111543327895974483635891nat, group_prime());
    }
    assert(pow_mod_by_squaring(2, 263470139855598293163466987459485857339768nat, group_prime()) == 10141453420454824396495642919778388216279191263108131242301986295258950287466nat) by {
        lemma_square_step(263470139855598293163466987459485857339768nat, 4021567101128406090653476153146189940403042843015501111543327895974483635891nat);
        lemma_mod_by_quotient(16173001948878331620496574701678418951538573535549012006316497131031883042259527409886396155625085093378381246557970006785319260952825315509343063363881nat, 738889916544466308045339376277104602919369085586526243758082413700322274505nat, 10141453420454824396495642919778388216279191263108131242301986295258950287466nat, group_prime());
    }
    assert(pow_mod_by_squaring(2, 526940279711196586326933974918971714679536nat, group_prime()) == 3392297030839199798688444346722504830663157433807911308984748986419712271137nat) by {
        lemma_square_step(526940279711196586326933974918971714679536nat, 10141453420454824396495642919778388216279191263108131242301986295258950287466nat);
        lemma_mod_by_quotient(102849077479254857262887213039418267435630033472736001678197452492086206887191260204356311060256995379020539157373544954040137126413139808318724036701156nat, 4698827497550168597568796263298144991700703727425789609602658357086704854693nat, 3392297030839199798688444346722504830663157433807911308984748986419712271137nat, group_prime());
    }
    assert(pow_mod_by_squaring(2, 1053880559422393172653867949837943429359072nat, group_prime()) == 12498196266369852886043687814261589567541545448916598120734765213469494122077nat) by {
        lemma_square_step(1053880559422393172653867949837943429359072nat, 3392297030839199798688444346722504830663157433807911308984748986419712271137nat);
        lemma_mod_by_quotient(11507679145440450870039071607532812260320055436685266544709837248415483790506493296313247999894578960169851232381404344812539297395994024706978603272769nat, 525747051182709091788764581001203214645616318915887368847092414618027740924nat, 12498196266369852886043687814261589567541545448916598120734765213469494122077nat, group_prime());
    }
    assert(pow_mod_by_squaring(2, 2107761118844786345307735899675886858718144nat, group_prime()) == 6679548364040082448482759444805518778742208963500557938949221375717931225973nat) by {
        lemma_square_step(2107761118844786345307735899675886858718144nat, 12498196266369852886043687814261589567541545448916598120734765213469494122077nat);
        lemma_mod_by_quotient(156204909912701330674777876263462645684921866605157860923154278362790309841073534525218202328977766757903144025820065209210528656920734545466852978793929nat, 7136475542021221552544421081218259785116562993886034976947505329101044645132nat, 6679548364040082448482759444805518778742208963500557938949221375717931225973nat, group_prime());
    }
    assert(pow_mod_by_squaring(2, 4215522237689572690615471799351773717436289nat, group_prime()) == 17208988435235143732423272958216781311675737114680379289799447794739563514000nat) by {
        lemma_square_double_step(4215522237689572690615471799351773717436289nat, 6679548364040082448482759444805518778742208963500557938949221375717931225973nat);
        lemma_mod_by_quotient(44616366347550541802377866866188875578356508554465423912923413201627943460434268121660008562837897409794796307428281060315555803810478790977094789796729nat, 2038371312342872224071211286491621856240606616974514045179752094535394053063nat, 8604494217617571866211636479108390655837868557340189644899723897369781757000nat, group_prime());
        lemma_mod_by_quotient(17208988435235143732423272958216781311675737114680379289799447794739563514000nat, 0nat, 17208988435235143732423272958216781311675737114680379289799447794739563514000nat, group_prime());
    }
    assert(pow_mod_by_squaring(2, 8431044475379145381230943598703547434872578nat, group_prime()) == 2075019470779417820713915680769431718845396406903861742122597627077926091243nat) by {
        lemma_square_step(8431044475379145381230943598703547434872578nat, 17208988435235143732423272958216781311675737114680379289799447794739563514000nat);
        lemma_mod_by_quotient(296149282964056920768724970300499603421382488995737992935249346392690859880527246620154482784330524749475328735134278296165274368127330423240028196000000nat, 13530061992553695242799685049694742498627495253173963204681059993426851382979nat, 2075019470779417820713915680769431718845396406903861742122597627077926091243nat, group_prime());
    }
    assert(pow_mod_by_squaring(2, 16862088950758290762461887197407094869745157nat, group_prime()) == 6098582856781045330077762744125820639596272669118436694318515889314836693652nat) by {
        lemma_square_double_step(16862088950758290762461887197407094869745157nat, 2075019470779417820713915680769431718845396406903861742122597627077926091243nat);
        lemma_mod_by_quotient(4305705804113695207100180814316180402527455313518255773332885294952221568300646994296614628449212504508763663455392016637436087353627036418412361285049nat, 196713177449857377881301704263013443675910244264201207231220148374230621081nat, 3049291428390522665038881372062910319798136334559218347159257944657418346826nat, group_prime());
        lemma_mod_by_quotient(6098582856781045330077762744125820639596272669118436694318515889314836693652nat, 0nat, 6098582856781045330077762744125820639596272669118436694318515889314836693652nat, group_prime());
    }
}

proof fn lemma_fermat_steps_18()
    requires
        pow_mod_by_squaring(2, 16862088950758290762461887197407094869745157nat, group_prime()) == 6098582856781045330077762744125820639596272669118436694318515889314836693652nat,
    ensures
        pow_mod_by_squaring(2, 4316694771394122435190243122536216286654760362nat, group_prime()) == 2735590246534541598575555421384840172016494074395921226524579535575957578616nat,
{
    assert(pow_mod_by_squaring(2, 33724177901516581524923774394814189739490315nat, group_prime()) == 16398131085515654575663520715511052096921252693935924095435707054369150506786nat) by {
        lemma_square_double_step(33724177901516581524923774394814189739490315nat, 6098582856781045330077762744125820639596272669118436694318515889314836693652nat);
        lemma_mod_by_quotient(37192712861023656056152241843958770275446527853096658874617120869068464562981892308982545818862730313570313854437317532414088632811897016925723297097104nat, 1699209620379104551848671696611992563518533645186514203016770175798213556617nat, 8199065542757827287831760357755526048460626346967962047717853527184575253393nat, group_prime());
        lemma_mod_by_quotient(16398131085515654575663520715511052096921252693935924095435707054369150506786nat, 0nat, 16398131085515654575663520715511052096921252693935924095435707054369150506786nat, group_prime());
    }
    assert(pow_mod_by_squaring(2, 67448355803033163049847548789628379478980630nat, group_prime()) == 9886592787572552077299238911758930399334424918439194171552341722224033926334nat) by {
        lemma_square_step(67448355803033163049847548789628379478980630nat, 16398131085515654575663520715511052096921252693935924095435707054369150506786nat);
        lemma_mod_by_quotient(268898703097754819877886826732529175713719007888735209078611868985857112399822837166909505811668620969255396174190801154587998693064942233548360632049796nat, 12285074899443455691694781713311703764105958116011312671618392238053355215114nat, 9886592787572552077299238911758930399334424918439194171552341722224033926334nat, group_prime());
    }
    assert(pow_mod_by_squaring(2, 134896711606066326099695097579256758957961261nat, group_prime()) == 9405279275540735069865500281841473136580942184958100190639734198520841743201nat) by {
        lemma_square_double_step(134896711606066326099695097579256758957961261nat, 9886592787572552077299238911758930399334424918439194171552341722224033926334nat);
        lemma_mod_by_quotient(97744716947281605844544859612390815187772644572053398532448709195899684204731062912096810190793978381403448872325807072437684251593676614444628138679556nat, 4465626479000600092935262487688456715040321023630680899630525749793473645008nat, 15646761073690005146055953013549374112638626671127961926664386046583033975892nat, group_prime());
        lemma_mod_by_quotient(31293522147380010292111906027098748225277253342255923853328772093166067951784nat, 1nat, 9405279275540735069865500281841473136580942184958100190639734198520841743201nat, group_prime());
    }
    assert(pow_mod_by_squaring(2, 269793423212132652199390195158513517915922522nat, group_prime()) == 544618757288054535200814206590390370723464670958629128650385487502449052643nat) by {
        lemma_square_step(269793423212132652199390195158513517915922522nat, 9405279275540735069865500281841473136580942184958100190639734198520841743201nat);
        lemma_mod_by_quotient(88459278250916054317035728092402979724899187369328426759769130955341945014934079085919464113803632265224374055013004412966722370394503497056656429726401nat, 4041406099560644915992671600423805482049125432909206888988146278794850898226nat, 544618757288054535200814206590390370723464670958629128650385487502449052643nat, group_prime());
    }
    assert(pow_mod_by_squaring(2, 539586846424265304398780390317027035831845045nat, group_prime()) == 1636939258210799062167202922062759107024464049476383748397745378956032943441nat) by {
        lemma_square_double_step(539586846424265304398780390317027035831845045nat, 544618757288054535200814206590390370723464670958629128650385487502449052643nat);
        lemma_mod_by_quotient(296609590789984854901535772412156334538269052644783631105281096108736398057634764514629121694162207582594681864017794372968683452267434783848185285449nat, 13551091904759217765693966479629581974137056241133768317789835172024950939nat, 11762591065025037142206804333660017097860387603387103705543391636800629576012nat, group_prime());
        lemma_mod_by_quotient(23525182130050074284413608667320034195720775206774207411086783273601259152024nat, 1nat, 1636939258210799062167202922062759107024464049476383748397745378956032943441nat, group_prime());
    }
    assert(pow_mod_by_squaring(2, 1079173692848530608797560780634054071663690090nat, group_prime()) == 7955973621820860449607104529482699020610510601832971846585200680805671338805nat) by {
        lemma_square_step(1079173692848530608797560780634054071663690090nat, 1636939258210799062167202922062759107024464049476383748397745378956032943441nat);
        lemma_mod_by_quotient(2679570135071721084866590290964261726467671804926848164772755524258328217966179085134109053574660013407971624833621693314669447588785320340462304920481nat, 122420522778426025872481539458862565773421728048774022617796366209273233972nat, 7955973621820860449607104529482699020610510601832971846585200680805671338805nat, group_prime());
    }
    assert(pow_mod_by_squaring(2, 2158347385697061217595121561268108143327380181nat, group_prime()) == 21616720518480937247499484704616343063495956529428976405282280045517138427481nat) by {
        lemma_square_double_step(2158347385697061217595121561268108143327380181nat, 7955973621820860449607104529482699020610510601832971846585200680805671338805nat);
        lemma_mod_by_quotient(63297516271109339808866458779237118162410295348346733856760787084195870250623397098046810641537942054948641187809403825132805799359499080971841098828025nat, 2891850051268662282671208778970335866851138657428907100742182382383694048271nat, 21752481695160106234872945224936809076096133843363400033985658970081182318032nat, group_prime());
        lemma_mod_by_quotient(43504963390320212469745890449873618152192267686726800067971317940162364636064nat, 1nat, 21616720518480937247499484704616343063495956529428976405282280045517138427481nat, group_prime());
    }
    assert(pow_mod_by_squaring(2, 4316694771394122435190243122536216286654760362nat, group_prime()) == 2735590246534541598575555421384840172016494074395921226524579535575957578616nat) by {
        lemma_square_step(4316694771394122435190243122536216286654760362nat, 21616720518480937247499484704616343063495956529428976405282280045517138427481nat);
        lemma_mod_by_quotient(467282605974114760456016411053446925444363110057963108707042526948790412217700660169793766263281785045475476780956028788011462914038563986467521496005361nat, 21348566383796200598162382670305757769577308827041783148074830997271768606015nat, 2735590246534541598575555421384840172016494074395921226524579535575957578616nat, group_prime());
    }
}

proof fn lemma_fermat_steps_19()
    requires
        pow_mod_by_squaring(2, 4316694771394122435190243122536216286654760362nat, group_prime()) == 2735590246534541598575555421384840172016494074395921226524579535575957578616nat,
    ensures
        pow_mod_by_squaring(2, 1105073861476895343408702239369271369383618652741nat, group_prime()) == 8116815192580482195843684279557961861298110765892831555368166562617409322388nat,
{
    assert(pow_mod_by_squaring(2, 8633389542788244870380486245072432573309520724nat, group_prime()) == 3323319882004087881119647043864722456771701295664678831427414840864646233888nat) by {
        lemma_square_step(8633389542788244870380486245072432573309520724nat, 2735590246534541598575555421384840172016494074395921226524579535575957578616nat);
        lemma_mod_by_quotient(7483453996934914082574808530153287407375062402202625084293679037626320824078823767190542505584096194880648299743777413612363549303941579485205820475456nat, 341893775610599177002551276640725128335286749116604871579799794772035747296nat, 3323319882004087881119647043864722456771701295664678831427414840864646233888nat, group_prime());
    }
    assert(pow_mod_by_squaring(2, 17266779085576489740760972490144865146619041449nat, group_prime()) == 12747313611845965533555059661561236021631433272887975718565184051969201567011nat) by {
        lemma_square_double_step(17266779085576489740760972490144865146619041449nat, 3323319882004087881119647043864722456771701295664678831427414840864646233888nat);
        lemma_mod_by_quotient(11044455038123664597200367594168364884771517847803362669067558106403260363383583006798797942139266707588210169411096592049807714031297305616701999596544nat, 504583903915517724935779401304817752142635582752460001285983479839848380509nat, 17317778241842620377900732703409255555163872215092899690627110973307213887797nat, group_prime());
        lemma_mod_by_quotient(34635556483685240755801465406818511110327744430185799381254221946614427775594nat, 1nat, 12747313611845965533555059661561236021631433272887975718565184051969201567011nat, group_prime());
    }
    assert(pow_mod_by_squaring(2, 34533558171152979481521944980289730293238082898nat, group_prime()) == 15946719131573451226082364135784726774283088961975459249882346419340730868911nat) by {
        lemma_square_step(34533558171152979481521944980289730293238082898nat, 12747313611845965533555059661561236021631433272887975718565184051969201567011nat);
        lemma_mod_by_quotient(162494004318753435242362236167436291671238712084095284140642623679631696042708210632635354736746124189770053936851001143290960815493001560618577923474121nat, 7423803055832001476093511819351196257935659100760242050605074537483891086870nat, 15946719131573451226082364135784726774283088961975459249882346419340730868911nat, group_prime());
    }
    assert(pow_mod_by_squaring(2, 69067116342305958963043889960579460586476165796nat, group_prime()) == 8142791173282074830119355778729693809454534175328228405550835530224280090991nat) by {
        lemma_square_step(69067116342305958963043889960579460586476165796nat, 15946719131573451226082364135784726774283088961975459249882346419340730868911nat);
        lemma_mod_by_quotient(254297851061290726436654931000348535003431255051856865327409365111695561765966675727956419789788298085462997412463716403663491900846856084446845066325921nat, 11618011210413894968150985292416418449015059979246369469774883940412960827710nat, 8142791173282074830119355778729693809454534175328228405550835530224280090991nat, group_prime());
    }
    assert(pow_mod_by_squaring(2, 138134232684611917926087779921158921172952331592nat, group_prime()) == 19348160822964036762458718863279743230625738108053558289169747091118263625457nat) by {
        lemma_square_step(138134232684611917926087779921158921172952331592nat, 8142791173282074830119355778729693809454534175328228405550835530224280090991nat);
        lemma_mod_by_quotient(66305048091680468802722295752760247231241887451803117146555128379767979489545148505961349165089025102544983942002147509285925384339252979674931239362081nat, 3029254037426021895644048444506642610492390575840195252275958465634476386128nat, 19348160822964036762458718863279743230625738108053558289169747091118263625457nat, group_prime());
    }
    assert(pow_mod_by_squaring(2, 276268465369223835852175559842317842345904663185nat, group_prime()) == 3169484272296997596918145593287241501201368882099644341918335748427481677051nat) by {
        lemma_square_double_step(276268465369223835852175559842317842345904663185nat, 19348160822964036762458718863279743230625738108053558289169747091118263625457nat);
        lemma_mod_by_quotient(374351327231280392321672376285014893141484704938164889697958239065389753904008632337156233406249297909544184831252224298515939619944864876280233578458849nat, 17102849663318979094740120422302777095367550631075085265270217974120713379904nat, 12528863572068136409582275669272258294948840019698734002303686821536353942817nat, group_prime());
        lemma_mod_by_quotient(25057727144136272819164551338544516589897680039397468004607373643072707885634nat, 1nat, 3169484272296997596918145593287241501201368882099644341918335748427481677051nat, group_prime());
    }
    assert(pow_mod_by_squaring(2, 552536930738447671704351119684635684691809326370nat, group_prime()) == 4008988766708429342576871917760950065527943667781892181184882887106098323036nat) by {
        lemma_square_step(552536930738447671704351119684635684691809326370nat, 3169484272296997596918145593287241501201368882099644341918335748427481677051nat);
        lemma_mod_by_quotient(10045630552338028408595923831235194717458415810499346182785504299468665386908248798562109125607157230417541676649426796802506352266589622510335460056601nat, 458950981636923477715663035298543470145170041410665214902509582560744590555nat, 4008988766708429342576871917760950065527943667781892181184882887106098323036nat, group_prime());
    }
    assert(pow_mod_by_squaring(2, 1105073861476895343408702239369271369383618652741nat, group_prime()) == 8116815192580482195843684279557961861298110765892831555368166562617409322388nat) by {
        lemma_square_double_step(1105073861476895343408702239369271369383618652741nat, 4008988766708429342576871917760950065527943667781892181184882887106098323036nat);
        lemma_mod_by_quotient(16071990931594373308292762152872948322945097192371716151210255045361175905208325549056426648824177857412005256824462500366807460580765424015051408257296nat, 734275063818489116440346626197844171426897167677533614068078341451685357194nat, 4058407596290241097921842139778980930649055382946415777684083281308704661194nat, group_prime());
        lemma_mod_by_quotient(8116815192580482195843684279557961861298110765892831555368166562617409322388nat, 0nat, 8116815192580482195843684279557961861298110765892831555368166562617409322388nat, group_prime());
    }
}

proof fn lemma_fermat_steps_20()
    requires
        pow_mod_by_squaring(2, 1105073861476895343408702239369271369383618652741nat, group_prime()) == 8116815192580482195843684279557961861298110765892831555368166562617409322388nat,
    ensures
        pow_mod_by_squaring(2, 282898908538085207912627773278533470562206375101857nat, group_prime()) == 2260417388307970589589506761724816802645077911500629644049049649689384844883nat,
{
    assert(pow_mod_by_squaring(2, 2210147722953790686817404478738542738767237305483nat, group_prime()) == 2320143653308912379883092144301588486136709939183661597483556883441077487764nat) by {
        lemma_square_double_step(2210147722953790686817404478738542738767237305483nat, 8116815192580482195843684279557961861298110765892831555368166562617409322388nat);
        lemma_mod_by_quotient(65882688870505330276156031214826785191363606436513844141124761619161684222720955297332756569976598317060446953303396102227867486201873451483609318022544nat, 3009957868992212500414066437118006190838226226297832819049534446097012549514nat, 1160071826654456189941546072150794243068354969591830798741778441720538743882nat, group_prime());
        lemma_mod_by_quotient(2320143653308912379883092144301588486136709939183661597483556883441077487764nat, 0nat, 2320143653308912379883092144301588486136709939183661597483556883441077487764nat, group_prime());
    }
    assert(pow_mod_by_squaring(2, 4420295445907581373634808957477085477534474610966nat, group_prime()) == 15970987646137876255930441337598608836086834014234432400196723936308382956902nat) by {
        lemma_square_step(4420295445907581373634808957477085477534474610966nat, 2320143653308912379883092144301588486136709939183661597483556883441077487764nat);
        lemma_mod_by_quotient(5383066571989626604133189099676017119980613832188153668242289523549576548887110697523334807146005923985588265641068925922216197699810309436201569719696nat, 245934157598155616671428995873753020677091186093604365032059996578055050118nat, 15970987646137876255930441337598608836086834014234432400196723936308382956902nat, group_prime());
    }
    assert(pow_mod_by_squaring(2, 8840590891815162747269617914954170955068949221933nat, group_prime()) == 19210855711323671224078578851659560109196438914302067551302135567820242822893nat) by {
        lemma_square_double_step(8840590891815162747269617914954170955068949221933nat, 15970987646137876255930441337598608836086834014234432400196723936308382956902nat);
        lemma_mod_by_quotient(255072446393088661276302635538179590615974824890952827461042160290930879961181721530861257471226049442035760169229122349783929563849259660651620789437604nat, 11653399858846451645800684358288883847917702495449283090759011926798450660902nat, 20549549291581473223162492298458417598946375035799945606995586731232734515738nat, group_prime());
        lemma_mod_by_quotient(41099098583162946446324984596916835197892750071599891213991173462465469031476nat, 1nat, 19210855711323671224078578851659560109196438914302067551302135567820242822893nat, group_prime());
    }
    assert(pow_mod_by_squaring(2, 17681181783630325494539235829908341910137898443866nat, group_prime()) == 19832499780655063390462820052687905413465658444340815792662159426403967003756nat) by {
        lemma_square_step(17681181783630325494539235829908341910137898443866nat, 19210855711323671224078578851659560109196438914302067551302135567820242822893nat);
        lemma_mod_by_quotient(369056977161297317888257417551632289905208887414983533226274796683231075631969952843479653866836555768429981548538986733219291040503712559169477364889449nat, 16860968663506307119224558004789240872800021162780758818945405512511985846171nat, 19832499780655063390462820052687905413465658444340815792662159426403967003756nat, group_prime());
    }
    assert(pow_mod_by_squaring(2, 35362363567260650989078471659816683820275796887732nat, group_prime()) == 6705929089314734495189079114783623408589281871961608144746759977058457882981nat) by {
        lemma_square_step(35362363567260650989078471659816683820275796887732nat, 19832499780655063390462820052687905413465658444340815792662159426403967003756nat);
        lemma_mod_by_quotient(393328047549683137494908973631749590087998598535347110187185376034700295583321428893540523487953331240624631086367444789957566824327214948235600118107536nat, 17969832016791381240667603590163769282788874454635290965340920030263026265085nat, 6705929089314734495189079114783623408589281871961608144746759977058457882981nat, group_prime());
    }
    assert(pow_mod_by_squaring(2, 70724727134521301978156943319633367640551593775464nat, group_prime()) == 4585176664959423320893333430384069498778020935518986890425625108867534332750nat) by {
        lemma_square_step(70724727134521301978156943319633367640551593775464nat, 6705929089314734495189079114783623408589281871961608144746759977058457882981nat);
        lemma_mod_by_quotient(44969484950917544334299410184361664777409087924807854319147731793946696772412107948557939180326936785621228801474468466949405738232137826956620289446361nat, 2054504110458947307446834618255463182882141638565384571665791588791575221917nat, 4585176664959423320893333430384069498778020935518986890425625108867534332750nat, group_prime());
    }
    assert(pow_mod_by_squaring(2, 141449454269042603956313886639266735281103187550928nat, group_prime()) == 14449807446084883396464303528831150702795781176502986858886175966309189847916nat) by {
        lemma_square_step(141449454269042603956313886639266735281103187550928nat, 4585176664959423320893333430384069498778020935518986890425625108867534332750nat);
        lemma_mod_by_quotient(21023845048888419740635485265010200298392506504388673561324277086250585692318091933334036422787258367108966427716815106442795747893469192499987722562500nat, 960508578600296758826161780546723210780825554000639622777004790533107542248nat, 14449807446084883396464303528831150702795781176502986858886175966309189847916nat, group_prime());
    }
    assert(pow_mod_by_squaring(2, 282898908538085207912627773278533470562206375101857nat, group_prime()) == 2260417388307970589589506761724816802645077911500629644049049649689384844883nat) by {
        lemma_square_double_step(282898908538085207912627773278533470562206375101857nat, 14449807446084883396464303528831150702795781176502986858886175966309189847916nat);
        lemma_mod_by_quotient(208796935228930140384550531599212190340832745454606243902922464164623391966084193855440517285284157579026422122270965617953559756260307135766319209543056nat, 9539227815201269969492399015143444814166258269053045424265818364051352911781nat, 12074330130073622905917956253491045945670694534399226653369043772167305526733nat, group_prime());
        lemma_mod_by_quotient(24148660260147245811835912506982091891341389068798453306738087544334611053466nat, 1nat, 2260417388307970589589506761724816802645077911500629644049049649689384844883nat, group_prime());
    }
}

proof fn lemma_fermat_steps_21()
    requires
        pow_mod_by_squaring(2, 282898908538085207912627773278533470562206375101857nat, group_prime()) == 2260417388307970589589506761724816802645077911500629644049049649689384844883nat,
    ensures
        pow_mod_by_squaring(2, 72422120585749813225632709959304568463924832026075591nat, group_prime()) == 11860643531924265498728393997729689664464437536181695871870887823952144465832nat,
{
    assert(pow_mod_by_squaring(2, 565797817076170415825255546557066941124412750203715nat, group_prime()) == 525839026631058796741049288213115589315256132389963282189311314530002917670nat) by {
        lemma_square_double_step(565797817076170415825255546557066941124412750203715nat, 2260417388307970589589506761724816802645077911500629644049049649689384844883nat);
        lemma_mod_by_quotient(5109486769365026695496311617144805954230264202916179578241634298563076419778051765971805291793389040771222750883418117906194394114112656488357971283689nat, 233435219048064002092350014750515099178430612652357141145923195301624978938nat, 262919513315529398370524644106557794657628066194981641094655657265001458835nat, group_prime());
        lemma_mod_by_quotient(525839026631058796741049288213115589315256132389963282189311314530002917670nat, 0nat, 525839026631058796741049288213115589315256132389963282189311314530002917670nat, group_prime());
    }
    assert(pow_mod_by_squaring(2, 1131595634152340831650511093114133882248825500407431nat, group_prime()) == 2966476845632865901571063588583651946181000462075111060339641727083908377319nat) by {
        lemma_square_double_step(1131595634152340831650511093114133882248825500407431nat, 525839026631058796741049288213115589315256132389963282189311314530002917670nat);
        lemma_mod_by_quotient(276506681928299362452325868808216923563906061158327943132595064471283819447212768882014720877528812842909797910264529177415679696786129498712798228900nat, 12632657794748986535680108556152622392222703297052905159783102702132619403nat, 12427359858736070561908734666920463517438655809686467361514339810864567292951nat, group_prime());
        lemma_mod_by_quotient(24854719717472141123817469333840927034877311619372934723028679621729134585902nat, 1nat, 2966476845632865901571063588583651946181000462075111060339641727083908377319nat, group_prime());
    }
    assert(pow_mod_by_squaring(2, 2263191268304681663301022186228267764497651000814862nat, group_prime()) == 11455156652577840480429251431180383452479112355524701247927136001428175386805nat) by {
        lemma_square_step(2263191268304681663301022186228267764497651000814862nat, 2966476845632865901571063588583651946181000462075111060339641727083908377319nat);
        lemma_mod_by_quotient(8799984875675918111401737764483374834130934127146758449026312656619683757191898223681095136029951710978549184067181279859160197651826195610307673627761nat, 402041631537161982349838417628246579622482524199015862403854810277240876132nat, 11455156652577840480429251431180383452479112355524701247927136001428175386805nat, group_prime());
    }
    assert(pow_mod_by_squaring(2, 4526382536609363326602044372456535528995302001629724nat, group_prime()) == 16641556302089262389312822881348679320365639372662267599773305812985098082779nat) by {
        lemma_square_step(4526382536609363326602044372456535528995302001629724nat, 11455156652577840480429251431180383452479112355524701247927136001428175386805nat);
        lemma_mod_by_quotient(131220613935098355550701930315355687541405835853587923319234411540420721827385772894436535389039161344252009089605854929476807324551365895475611368108025nat, 5995027316876251855573507196894293144260652965183962522388187613970673995762nat, 16641556302089262389312822881348679320365639372662267599773305812985098082779nat, group_prime());
    }
    assert(pow_mod_by_squaring(2, 9052765073218726653204088744913071057990604003259448nat, group_prime()) == 20789269503491982594111906484351214950287160320861813643934998745513379977907nat) by {
        lemma_square_step(9052765073218726653204088744913071057990604003259448nat, 16641556302089262389312822881348679320365639372662267599773305812985098082779nat);
        lemma_mod_by_quotient(276941396155606845358808737915181659162959717164130928333273712671514037690599229605211271235747105005228507846966204890095646645818533855790861536362841nat, 12652518421746449751755440645346694758641855236614294640580473317049550118698nat, 20789269503491982594111906484351214950287160320861813643934998745513379977907nat, group_prime());
    }
    assert(pow_mod_by_squaring(2, 18105530146437453306408177489826142115981208006518897nat, group_prime()) == 8166822092560653658754955260942676443559436236633336391613380662076621533779nat) by {
        lemma_square_double_step(18105530146437453306408177489826142115981208006518897nat, 20789269503491982594111906484351214950287160320861813643934998745513379977907nat);
        lemma_mod_by_quotient(432193726488821784488797016561530400334930631639755959205910369198073730331775834816833679897682432399314178536791588562598176665767904455145791808100649nat, 19745473815299657434256217842611041981830277709454600359056317516739626758596nat, 15027532482199964440500680503099975766127873696965580027151209278360923871181nat, group_prime());
        lemma_mod_by_quotient(30055064964399928881001361006199951532255747393931160054302418556721847742362nat, 1nat, 8166822092560653658754955260942676443559436236633336391613380662076621533779nat, group_prime());
    }
    assert(pow_mod_by_squaring(2, 36211060292874906612816354979652284231962416013037795nat, group_prime()) == 12263812638147716358434412079133730006008996475171266913328885829858067064309nat) by {
        lemma_square_double_step(36211060292874906612816354979652284231962416013037795nat, 8166822092560653658754955260942676443559436236633336391613380662076621533779nat);
        lemma_mod_by_quotient(66696983091536773836875528204151867271656059543614024306339126629314754430436454196755173505031334891516507796135573163650507481409507622834646438020841nat, 3047160225791674411156702335122864074012995781825778453893844124149533145565nat, 17076027754993495790340408912195502547352653816234545288008961862251646636446nat, group_prime());
        lemma_mod_by_quotient(34152055509986991580680817824391005094705307632469090576017923724503293272892nat, 1nat, 12263812638147716358434412079133730006008996475171266913328885829858067064309nat, group_prime());
    }
    assert(pow_mod_by_squaring(2, 72422120585749813225632709959304568463924832026075591nat, group_prime()) == 11860643531924265498728393997729689664464437536181695871870887823952144465832nat) by {
        lemma_square_double_step(72422120585749813225632709959304568463924832026075591nat, 12263812638147716358434412079133730006008996475171266913328885829858067064309nat);
        lemma_mod_by_quotient(150401100423591650530836381622909311984136292465188897022290340348183460676141002417067174895937780684032438710219393259133779253536002641173865541647481nat, 6871319059470642818237449105806798819643996843695554920335468362148701797555nat, 5930321765962132749364196998864844832232218768090847935935443911976072232916nat, group_prime());
        lemma_mod_by_quotient(11860643531924265498728393997729689664464437536181695871870887823952144465832nat, 0nat, 11860643531924265498728393997729689664464437536181695871870887823952144465832nat, group_prime());
    }
}

proof fn lemma_fermat_steps_22()
    requires
        pow_mod_by_squaring(2, 72422120585749813225632709959304568463924832026075591nat, group_prime()) == 11860643531924265498728393997729689664464437536181695871870887823952144465832nat,
    ensures
        pow_mod_by_squaring(2, 18540062869951952185761973749581969526764756998675351338nat, group_prime()) == 19148445636760160153864273311639297763652137959536181541425625374127723445617nat,
{
    assert(pow_mod_by_squaring(2, 144844241171499626451265419918609136927849664052151182nat, group_prime()) == 21070576869782007486756956454693602180253936704359381248168135013279597993411nat) by {
        lemma_square_step(144844241171499626451265419918609136927849664052151182nat, 11860643531924265498728393997729689664464437536181695871870887823952144465832nat);
        lemma_mod_by_quotient(140674864991376915178693096702523391697569626076286010844037565428866577461477445863804419054431450807745216721341105243886451331310435811286504615452224nat, 6426960163730857149209722203812400962502803704400754969376444459607767606811nat, 21070576869782007486756956454693602180253936704359381248168135013279597993411nat, group_prime());
    }
    assert(pow_mod_by_squaring(2, 289688482342999252902530839837218273855699328104302364nat, group_prime()) == 8710887138586960495373686416713473521718721530392037388276357953284782511559nat) by {
        lemma_square_step(289688482342999252902530839837218273855699328104302364nat, 21070576869782007486756956454693602180253936704359381248168135013279597993411nat);
        lemma_mod_by_quotient(443969209625392540885303436707558452587958951094961047159350579887144882999266711579226678863665527452428311807581712496999212507448039836605457599414921nat, 20283455927683869078705426133082264938188069676706689001085731300412137850414nat, 8710887138586960495373686416713473521718721530392037388276357953284782511559nat, group_prime());
    }
    assert(pow_mod_by_squaring(2, 579376964685998505805061679674436547711398656208604729nat, group_prime()) == 20003198332776828906055144974974670000197918346194198524283303186230378710794nat) by {
        lemma_square_double_step(579376964685998505805061679674436547711398656208604729nat, 8710887138586960495373686416713473521718721530392037388276357953284782511559nat);
        lemma_mod_by_quotient(75879554741199724303674029645118732816683824986782333029788391472249416240704881226183626114742886569402008527721812360843094368754389236343851968610481nat, 3466680956780864882482616654112159058627108059714502723432983015102683045748nat, 10001599166388414453027572487487335000098959173097099262141651593115189355397nat, group_prime());
        lemma_mod_by_quotient(20003198332776828906055144974974670000197918346194198524283303186230378710794nat, 0nat, 20003198332776828906055144974974670000197918346194198524283303186230378710794nat, group_prime());
    }
    assert(pow_mod_by_squaring(2, 1158753929371997011610123359348873095422797312417209458nat, group_prime()) == 10977084294721280549767701548754646750465938418309264635353485713718192275822nat) by {
        lemma_square_step(1158753929371997011610123359348873095422797312417209458nat, 20003198332776828906055144974974670000197918346194198524283303186230378710794nat);
        lemma_mod_by_quotient(400127943540405707580306784476145834637583861381122475303332970600235033589571273975723830457289401205715481716089055687970719977674099929755105492110436nat, 18280496332357392360469341618583523836863896039873989561745958531677002989658nat, 10977084294721280549767701548754646750465938418309264635353485713718192275822nat, group_prime());
    }
    assert(pow_mod_by_squaring(2, 2317507858743994023220246718697746190845594624834418917nat, group_prime()) == 20886580893242212918000553969094197995916406484751047965030787069835306094838nat) by {
        lemma_square_double_step(2317507858743994023220246718697746190845594624834418917nat, 10977084294721280549767701548754646750465938418309264635353485713718192275822nat);
        lemma_mod_by_quotient(120496379613416593225365689670101413998812749004102221124794599436372979848280819124131010728409657801711587056219139263078680096835864807222383725775684nat, 5505073217569394068937339346357506587433382760881694226297000505073392281455nat, 10443290446621106459000276984547098997958203242375523982515393534917653047419nat, group_prime());
        lemma_mod_by_quotient(20886580893242212918000553969094197995916406484751047965030787069835306094838nat, 0nat, 20886580893242212918000553969094197995916406484751047965030787069835306094838nat, group_prime());
    }
    assert(pow_mod_by_squaring(2, 4635015717487988046440493437395492381691189249668837834nat, group_prime()) == 14193595283603935022984649227621646765235266225902544954636144535938498536835nat) by {
        lemma_square_step(4635015717487988046440493437395492381691189249668837834nat, 20886580893242212918000553969094197995916406484751047965030787069835306094838nat);
        lemma_mod_by_quotient(436249261409950676859354959686242719838274590753048155700316559295485829105899766708343605840895434359351795891785711158213397823793532371717509850246244nat, 19930757528792558046759547991547710252473487555476704633326807544464501264023nat, 14193595283603935022984649227621646765235266225902544954636144535938498536835nat, group_prime());
    }
    assert(pow_mod_by_squaring(2, 9270031434975976092880986874790984763382378499337675669nat, group_prime()) == 6249803542392818448539915576415891356530393607495217450011729401199443010867nat) by {
        lemma_square_double_step(9270031434975976092880986874790984763382378499337675669nat, 14193595283603935022984649227621646765235266225902544954636144535938498536835nat);
        lemma_mod_by_quotient(201458147074743868676311565229147866462332424773572233201369036472949898261039671624418748998642286604039837141664994683868032417686942397091435851817225nat, 9203943334068792875880532548776206602176807620259775643076800078274950252500nat, 14069023207116046835393160660836583222613352382396520556350383647922334609725nat, group_prime());
        lemma_mod_by_quotient(28138046414232093670786321321673166445226704764793041112700767295844669219450nat, 1nat, 6249803542392818448539915576415891356530393607495217450011729401199443010867nat, group_prime());
    }
    assert(pow_mod_by_squaring(2, 18540062869951952185761973749581969526764756998675351338nat, group_prime()) == 19148445636760160153864273311639297763652137959536181541425625374127723445617nat) by {
        lemma_square_step(18540062869951952185761973749581969526764756998675351338nat, 6249803542392818448539915576415891356530393607495217450011729401199443010867nat);
        lemma_mod_by_quotient(39060044318505822026249724529243325232110618117629807516539836951227573668925532315096180378522036910868763849457544451914253553441990315917694280091689nat, 1784521697205728944153392622104344065072739794596222354010407014960171899784nat, 19148445636760160153864273311639297763652137959536181541425625374127723445617nat, group_prime());
    }
}

proof fn lemma_fermat_steps_23()
    requires
        pow_mod_by_squaring(2, 18540062869951952185761973749581969526764756998675351338nat, group_prime()) == 19148445636760160153864273311639297763652137959536181541425625374127723445617nat,
    ensures
        pow_mod_by_squaring(2, 4746256094707699759555065279892984198851777791660889942580nat, group_prime()) == 13729634405892782671569218029336643751962011796649770319975071467692104094479nat,
{
    assert(pow_mod_by_squaring(2, 37080125739903904371523947499163939053529513997350702676nat, group_prime()) == 7529134104038922918908279253862231362868165987861746108453777109338619074414nat) by {
        lemma_square_step(37080125739903904371523947499163939053529513997350702676nat, 19148445636760160153864273311639297763652137959536181541425625374127723445617nat);
        lemma_mod_by_quotient(366662970303959215258424709120664514212384739961573772813448561050350369219747711423692376975830302614835290074982401286292870066228921850076278756510689nat, 16751594563842137340284011552929552696861936003213839435987414077954260759925nat, 7529134104038922918908279253862231362868165987861746108453777109338619074414nat, group_prime());
    }
    assert(pow_mod_by_squaring(2, 74160251479807808743047894998327878107059027994701405352nat, group_prime()) == 19399642875197211797530239550815706860124359371381391883556686688617209612063nat) by {
        lemma_square_step(74160251479807808743047894998327878107059027994701405352nat, 7529134104038922918908279253862231362868165987861746108453777109338619074414nat);
        lemma_mod_by_quotient(56687860356601994568360618550035940226081548422549868789510677766287841035694887766903025947404490804395492415597318061137366811818344455808994069443396nat, 2589877163211434051188596727228829572099864164726697574125687488702244819251nat, 19399642875197211797530239550815706860124359371381391883556686688617209612063nat, group_prime());
    }
    assert(pow_mod_by_squaring(2, 148320502959615617486095789996655756214118055989402810705nat, group_prime()) == 14027464052149903539683872942410606711498581534807205971072443538105968283971nat) by {
        lemma_square_double_step(148320502959615617486095789996655756214118055989402810705nat, 19399642875197211797530239550815706860124359371381391883556686688617209612063nat);
        lemma_mod_by_quotient(376346143685189942510685801091135364252795130498586943610608326682208291378654485930999388920518092340259391056758021934330408263121180339910958955115969nat, 17193986099696703059557404138021648598639430766788778032981059245000101333924nat, 17957853461994589380965139343833940900097446346052514816880740716375597246277nat, group_prime());
        lemma_mod_by_quotient(35915706923989178761930278687667881800194892692105029633761481432751194492554nat, 1nat, 14027464052149903539683872942410606711498581534807205971072443538105968283971nat, group_prime());
    }
    assert(pow_mod_by_squaring(2, 296641005919231234972191579993311512428236111978805621411nat, group_prime()) == 821020774960847330809215531553404007697310700232973145281322938569616589854nat) by {
        lemma_square_double_step(296641005919231234972191579993311512428236111978805621411nat, 14027464052149903539683872942410606711498581534807205971072443538105968283971nat);
        lemma_mod_by_quotient(196769747734357791732388637358810258208167643532741056754415769190292344433658371614242798530077766566916821455961472908357340460506525136003758495528841nat, 8989746179558138936624612864467700175423634556025712829132744800830298616758nat, 410510387480423665404607765776702003848655350116486572640661469284808294927nat, group_prime());
        lemma_mod_by_quotient(821020774960847330809215531553404007697310700232973145281322938569616589854nat, 0nat, 821020774960847330809215531553404007697310700232973145281322938569616589854nat, group_prime());
    }
    assert(pow_mod_by_squaring(2, 593282011838462469944383159986623024856472223957611242822nat, group_prime()) == 302439841719962014561576869351179231162118427270021801772852025812594726460nat) by {
        lemma_square_step(593282011838462469944383159986623024856472223957611242822nat, 821020774960847330809215531553404007697310700232973145281322938569616589854nat);
        lemma_mod_by_quotient(674075112917310315396859957220788427898763740569294250317608389604744115442263822099581165110027460368103380558964628130367211166999601540900055741316nat, 30796218630438999397442740703829725165837410742471529706136073453430029432nat, 302439841719962014561576869351179231162118427270021801772852025812594726460nat, group_prime());
    }
    assert(pow_mod_by_squaring(2, 1186564023676924939888766319973246049712944447915222485645nat, group_prime()) == 7156585572203855042922453444609075596825946753971798178395611313182001804440nat) by {
        lemma_square_double_step(1186564023676924939888766319973246049712944447915222485645nat, 302439841719962014561576869351179231162118427270021801772852025812594726460nat);
        lemma_mod_by_quotient(91469857859595675938431288563261063733495010008603029708130854049783452060220692948284206177107776675416205634511843686294694278174352470602224131600nat, 4178949328878195053708410273186885753854176628242970882274922695790456860nat, 3578292786101927521461226722304537798412973376985899089197805656591000902220nat, group_prime());
        lemma_mod_by_quotient(7156585572203855042922453444609075596825946753971798178395611313182001804440nat, 0nat, 7156585572203855042922453444609075596825946753971798178395611313182001804440nat, group_prime());
    }
    assert(pow_mod_by_squaring(2, 2373128047353849879777532639946492099425888895830444971290nat, group_prime()) == 13275455347300339228623266917978848477474081752552395572287383574607014020002nat) by {
        lemma_square_step(2373128047353849879777532639946492099425888895830444971290nat, 7156585572203855042922453444609075596825946753971798178395611313182001804440nat);
        lemma_mod_by_quotient(51216717052276379301958098951586938529242294985645014861513070419193991777824704168789176978299857320423246260164139749652596535318879916259416003713600nat, 2339919076746457177904872835689392832676181578097809466984884563746789198706nat, 13275455347300339228623266917978848477474081752552395572287383574607014020002nat, group_prime());
    }
    assert(pow_mod_by_squaring(2, 4746256094707699759555065279892984198851777791660889942580nat, group_prime()) == 13729634405892782671569218029336643751962011796649770319975071467692104094479nat) by {
        lemma_square_step(4746256094707699759555065279892984198851777791660889942580nat, 13275455347300339228623266917978848477474081752552395572287383574607014020002nat);
        lemma_mod_by_quotient(176237714678165170446171412162031047900728090306827596238193263728268042215705310132149909168913860615035348322329704095543953655729030514774988456080004nat, 8051706832297035160444351338868240243253880310964858568528941290806834424675nat, 13729634405892782671569218029336643751962011796649770319975071467692104094479nat, group_prime());
    }
}

proof fn lemma_fermat_steps_24()
    requires
        pow_mod_by_squaring(2, 4746256094707699759555065279892984198851777791660889942580nat, group_prime()) == 13729634405892782671569218029336643751962011796649770319975071467692104094479nat,
    ensures
        pow_mod_by_squaring(2, 1215041560245171138446096711652603954906055114665187825300720nat, group_prime()) == 15453632228726137085509156332167970933429176470890031498913093227398789111549nat,
{
    assert(pow_mod_by_squaring(2, 9492512189415399519110130559785968397703555583321779885161nat, group_prime()) == 16561624476784532751081050663734190772690928274615136126531389710348183338393nat) by {
        lemma_square_double_step(9492512189415399519110130559785968397703555583321779885161nat, 13729634405892782671569218029336643751962011796649770319975071467692104094479nat);
        lemma_mod_by_quotient(188502860919474863393326163287707636994880906331623205632695473017188977212548733242598744902051850619123918730526350658176885936521698338980596558281441nat, 8612060000576689270890116541288347450882584330523661935736806960065390144391nat, 19224933674311903986663728204495732930693619715956479894610213802496704773488nat, group_prime());
        lemma_mod_by_quotient(38449867348623807973327456408991465861387239431912959789220427604993409546976nat, 1nat, 16561624476784532751081050663734190772690928274615136126531389710348183338393nat, group_prime());
    }
    assert(pow_mod_by_squaring(2, 18985024378830799038220261119571936795407111166643559770323nat, group_prime()) == 9526409575073117965487465653107069611307938588352040574806376755208539975436nat) by {
        lemma_square_double_step(18985024378830799038220261119571936795407111166643559770323nat, 16561624476784532751081050663734190772690928274615136126531389710348183338393nat);
        lemma_mod_by_quotient(274287405310028548201670579902111240719488950641460788037852386193758865850086159023358835207214540090091090216776929091461560357588207909194494347822449nat, 12531266530440325846442236765746064723086805290526201041568256689038914538557nat, 4763204787536558982743732826553534805653969294176020287403188377604269987718nat, group_prime());
        lemma_mod_by_quotient(9526409575073117965487465653107069611307938588352040574806376755208539975436nat, 0nat, 9526409575073117965487465653107069611307938588352040574806376755208539975436nat, group_prime());
    }
    assert(pow_mod_by_squaring(2, 37970048757661598076440522239143873590814222333287119540647nat, group_prime()) == 3763274854825631192321515841137417956442723664496492518241819854272416135611nat) by {
        lemma_square_double_step(37970048757661598076440522239143873590814222333287119540647nat, 9526409575073117965487465653107069611307938588352040574806376755208539975436nat);
        lemma_mod_by_quotient(90752479392044783998053970917362659109073741360321182446095315242382162118445135578731282614257369226611647190124620325385524282931211701714847483390096nat, 4146174726012569484861293104336518770623515155722750980350511930138607285753nat, 12825758863332453207283960793197346522569517410897158090465428874458821172097nat, group_prime());
        lemma_mod_by_quotient(25651517726664906414567921586394693045139034821794316180930857748917642344194nat, 1nat, 3763274854825631192321515841137417956442723664496492518241819854272416135611nat, group_prime());
    }
    assert(pow_mod_by_squaring(2, 75940097515323196152881044478287747181628444666574239081295nat, group_prime()) == 8009075125002347750077784826130180885508179488639583203337635764227147403500nat) by {
        lemma_square_double_step(75940097515323196152881044478287747181628444666574239081295nat, 3763274854825631192321515841137417956442723664496492518241819854272416135611nat);
        lemma_mod_by_quotient(14162237632962875526164863761964455386371648998203087148574099322268084724399195793908243856594263481269128934371532329555002293351602992529230742343321nat, 647024876134921044181234165448179842207634313318327903642928011575774228037nat, 4004537562501173875038892413065090442754089744319791601668817882113573701750nat, group_prime());
        lemma_mod_by_quotient(8009075125002347750077784826130180885508179488639583203337635764227147403500nat, 0nat, 8009075125002347750077784826130180885508179488639583203337635764227147403500nat, group_prime());
    }
    assert(pow_mod_by_squaring(2, 151880195030646392305762088956575494363256889333148478162590nat, group_prime()) == 6436890271713200649575648952380769382905677161316382780887335223643933123985nat) by {
        lemma_square_step(151880195030646392305762088956575494363256889333148478162590nat, 8009075125002347750077784826130180885508179488639583203337635764227147403500nat);
        lemma_mod_by_quotient(64145284357931372238495412044053791222405211396521017976299964703248185755657728847533950649724787303608676697599820237052576691294273490916791812250000nat, 2930581716107448596731082935879943483957886013842761856696438474222312525705nat, 6436890271713200649575648952380769382905677161316382780887335223643933123985nat, group_prime());
    }
    assert(pow_mod_by_squaring(2, 303760390061292784611524177913150988726513778666296956325180nat, group_prime()) == 3420102006478747155988225018326502910305174741537400814445906472325994400947nat) by {
        lemma_square_step(303760390061292784611524177913150988726513778666296956325180nat, 6436890271713200649575648952380769382905677161316382780887335223643933123985nat);
        lemma_mod_by_quotient(41433556370076042086557405206737361070840095415081037961473534352183620710003631177311955708624318751230474078233333996090146770351283115475081382280225nat, 1892959458311893660844021928672108617653147986832112455326007869558321861666nat, 3420102006478747155988225018326502910305174741537400814445906472325994400947nat, group_prime());
    }
    assert(pow_mod_by_squaring(2, 607520780122585569223048355826301977453027557332593912650360nat, group_prime()) == 12765421458939701271743760765220636626047706570619193656705479538444954786286nat) by {
        lemma_square_step(607520780122585569223048355826301977453027557332593912650360nat, 3420102006478747155988225018326502910305174741537400814445906472325994400947nat);
        lemma_mod_by_quotient(11697097734719952253353445434482532591022993357087254290536110480337990640783609373022292140674276632969546127883450070372933152258332807416793394496809nat, 534400947723815248010359603878116716577115010619088909493797694952421379181nat, 12765421458939701271743760765220636626047706570619193656705479538444954786286nat, group_prime());
    }
    assert(pow_mod_by_squaring(2, 1215041560245171138446096711652603954906055114665187825300720nat, group_prime()) == 15453632228726137085509156332167970933429176470890031498913093227398789111549nat) by {
        lemma_square_step(1215041560245171138446096711652603954906055114665187825300720nat, 12765421458939701271743760765220636626047706570619193656705479538444954786286nat);
        lemma_mod_by_quotient(162955985024358211321738423980048871095488940118273644202624246096565108656422656640200750777075790601590475321173125794954760441549856793574819933673796nat, 7444909396268270388454107396406486573627925217667883377692143019948445195009nat, 15453632228726137085509156332167970933429176470890031498913093227398789111549nat, group_prime());
    }
}

proof fn lemma_fermat_steps_25()
    requires
        pow_mod_by_squaring(2, 1215041560245171138446096711652603954906055114665187825300720nat, group_prime()) == 15453632228726137085509156332167970933429176470890031498913093227398789111549nat,
    ensures
        pow_mod_by_squaring(2, 311050639422763811442200758183066612455950109354288083276984450nat, group_prime()) == 2258886422144756633714335628247935652030495640902405859633249268575744966797nat,
{
    assert(pow_mod_by_squaring(2, 2430083120490342276892193423305207909812110229330375650601441nat, group_prime()) == 72872284861729755252860205389741721575830421140853979089966940103158870369nat) by {
        lemma_square_double_step(2430083120490342276892193423305207909812110229330375650601441nat, 15453632228726137085509156332167970933429176470890031498913093227398789111549nat);
        lemma_mod_by_quotient(238814749060723154917667855234714189267375452590607712896845444178430003674131813892905943685106783342099579867596609178657627943476511512736040765179401nat, 10910640495860665867821353100555782283146222171525283104788451660193800061475nat, 10980557578350502488749632975323508405136070789219338820889502417374192539476nat, group_prime());
        lemma_mod_by_quotient(21961115156701004977499265950647016810272141578438677641779004834748385078952nat, 1nat, 72872284861729755252860205389741721575830421140853979089966940103158870369nat, group_prime());
    }
    assert(pow_mod_by_squaring(2, 4860166240980684553784386846610415819624220458660751301202882nat, group_prime()) == 10922391932876997725056353453541652767388085323547604358562388313304481606968nat) by {
        lemma_square_step(4860166240980684553784386846610415819624220458660751301202882nat, 72872284861729755252860205389741721575830421140853979089966940103158870369nat);
        lemma_mod_by_quotient(5310369900969087654652012487073529586087593933811324177391520810278895569960049957421916723607206054904285598994635730763072314552954255808146196161nat, 242612891864483216694503075675328645330965395342470055460469781821610671nat, 10922391932876997725056353453541652767388085323547604358562388313304481606968nat, group_prime());
    }
    assert(pow_mod_by_squaring(2, 9720332481961369107568773693220831639248440917321502602405764nat, group_prime()) == 5433489420902958791947460994190233455372398840367951270756784610665346250180nat) by {
        lemma_square_step(9720332481961369107568773693220831639248440917321502602405764nat, 10922391932876997725056353453541652767388085323547604358562388313304481606968nat);
        lemma_mod_by_quotient(119298645535376518377844863422361389351037212752892608186326042885594744668228183494771871355552597174794561991311358294082499696745234178949815626153024nat, 5450352786831619231960935384235466458153564715667095031677569181990488642468nat, 5433489420902958791947460994190233455372398840367951270756784610665346250180nat, group_prime());
    }
    assert(pow_mod_by_squaring(2, 19440664963922738215137547386441663278496881834643005204811528nat, group_prime()) == 1395156503657208305436256511495068367160067735402338387322380357576528021016nat) by {
        lemma_square_step(19440664963922738215137547386441663278496881834643005204811528nat, 5433489420902958791947460994190233455372398840367951270756784610665346250180nat);
        lemma_mod_by_quotient(29522807287064370486300355595545848043756967303572637290276547758178731130857610840770418639162921449660857305125025924826837162557553092228587150032400nat, 1348797501011261424424356776209321771410254949147300168603618399837371851848nat, 1395156503657208305436256511495068367160067735402338387322380357576528021016nat, group_prime());
    }
    assert(pow_mod_by_squaring(2, 38881329927845476430275094772883326556993763669286010409623056nat, group_prime()) == 7885340959116389344130511401654604414265450207820183153513906732996837896975nat) by {
        lemma_square_step(38881329927845476430275094772883326556993763669286010409623056nat, 1395156503657208305436256511495068367160067735402338387322380357576528021016nat);
        lemma_mod_by_quotient(1946461669697005891741929804711273599866013824636729723469150981464993230065639671775438241887293735344969215959703158542929150187667724440625337672256nat, 88927269360724348021852772019339867363805529767634979393279397987841854407nat, 7885340959116389344130511401654604414265450207820183153513906732996837896975nat, group_prime());
    }
    assert(pow_mod_by_squaring(2, 77762659855690952860550189545766653113987527338572020819246112nat, group_prime()) == 14973609589402028351319996884842283827504834553675245784481835635673410682249nat) by {
        lemma_square_step(77762659855690952860550189545766653113987527338572020819246112nat, 7885340959116389344130511401654604414265450207820183153513906732996837896975nat);
        lemma_mod_by_quotient(62178602041518579005940482073594235726362349915272674117517340174218874842488627947259084494845359939368049893993568268611172561280035664245540714150625nat, 2840730633591224106263757404545328626850973264683905728092727212949287248872nat, 14973609589402028351319996884842283827504834553675245784481835635673410682249nat, group_prime());
    }
    assert(pow_mod_by_squaring(2, 155525319711381905721100379091533306227975054677144041638492225nat, group_prime()) == 16739569658174023360585489906047282538378473697147477297925958035645018354600nat) by {
        lemma_square_double_step(155525319711381905721100379091533306227975054677144041638492225nat, 14973609589402028351319996884842283827504834553675245784481835635673410682249nat);
        lemma_mod_by_quotient(224208984135832380073911559119914174585350983764340630958381566196091865555177302825236442282145944896376541264734224607377201529279942233197063643698001nat, 10243352353527317923868109843018354456833982099902599933310928244242859173147nat, 8369784829087011680292744953023641269189236848573738648962979017822509177300nat, group_prime());
        lemma_mod_by_quotient(16739569658174023360585489906047282538378473697147477297925958035645018354600nat, 0nat, 16739569658174023360585489906047282538378473697147477297925958035645018354600nat, group_prime());
    }
    assert(pow_mod_by_squaring(2, 311050639422763811442200758183066612455950109354288083276984450nat, group_prime()) == 2258886422144756633714335628247935652030495640902405859633249268575744966797nat) by {
        lemma_square_step(311050639422763811442200758183066612455950109354288083276984450nat, 16739569658174023360585489906047282538378473697147477297925958035645018354600nat);
        lemma_mod_by_quotient(280213192340860389297310404022698190427322700924721141878012383311115065652871982020076943032980604298362541488518750113079172114144747099770891341160000nat, 12801995755510090230870004951893966013199826316973399719133623175417573401141nat, 2258886422144756633714335628247935652030495640902405859633249268575744966797nat, group_prime());
    }
}

proof fn lemma_fermat_steps_26()
    requires
        pow_mod_by_squaring(2, 311050639422763811442200758183066612455950109354288083276984450nat, group_prime()) == 2258886422144756633714335628247935652030495640902405859633249268575744966797nat,
    ensures
        pow_mod_by_squaring(2, 79628963692227535729203394094865052788723227994697749318908019248nat, group_prime()) == 9403680401045172080679188408496491865440689193810881321032405704899399787506nat,
{
    assert(pow_mod_by_squaring(2, 622101278845527622884401516366133224911900218708576166553968900nat, group_prime()) == 2386193417982724932950780484639438029767535081090476878016041908072643605669nat) by {
        lemma_square_step(622101278845527622884401516366133224911900218708576166553968900nat, 2258886422144756633714335628247935652030495640902405859633249268575744966797nat);
        lemma_mod_by_quotient(5102567868149939672804434837804509318067303764490826094969047297872674896128159000753280687690117705438987137507944852966462509135251375984078632439209nat, 233119117785134913190512070651860180182212547817758500376522727987624284380nat, 2386193417982724932950780484639438029767535081090476878016041908072643605669nat, group_prime());
    }
    assert(pow_mod_by_squaring(2, 1244202557691055245768803032732266449823800437417152333107937800nat, group_prime()) == 19610574169923401467922864963817299548577695195642297774826905674336710927951nat) by {
        lemma_square_step(1244202557691055245768803032732266449823800437417152333107937800nat, 2386193417982724932950780484639438029767535081090476878016041908072643605669nat);
        lemma_mod_by_quotient(5693919028024079421423585848760509289553905596243548647439337012155249605521313320873656321091220515528269027843984872487799590847137846348593168937561nat, 260135957982707535604508749653485058654377288734704181625756933244909973670nat, 19610574169923401467922864963817299548577695195642297774826905674336710927951nat, group_prime());
    }
    assert(pow_mod_by_squaring(2, 2488405115382110491537606065464532899647600874834304666215875601nat, group_prime()) == 10997740753458497437673533902082129758365173387559372618372312198594435136494nat) by {
        lemma_square_double_step(2488405115382110491537606065464532899647600874834304666215875601nat, 19610574169923401467922864963817299548577695195642297774826905674336710927951nat);
        lemma_mod_by_quotient(384574619274066906510782305758783410138061492574148160832907410582554777948993491735353311242078385805180725587211217496149053991902348436949623513058401nat, 17569917399301545340598231616598827983127213564649112790177482756817632308038nat, 5498870376729248718836766951041064879182586693779686309186156099297217568247nat, group_prime());
        lemma_mod_by_quotient(10997740753458497437673533902082129758365173387559372618372312198594435136494nat, 0nat, 10997740753458497437673533902082129758365173387559372618372312198594435136494nat, group_prime());
    }
    assert(pow_mod_by_squaring(2, 4976810230764220983075212130929065799295201749668609332431751203nat, group_prime()) == 20532866808504672393353309914924401936015728696194723255670629725661709477906nat) by {
        lemma_square_double_step(4976810230764220983075212130929065799295201749668609332431751203nat, 10997740753458497437673533902082129758365173387559372618372312198594435136494nat);
        lemma_mod_by_quotient(120950301680281878920106822509264696098341598873223253478134918890813432509587584923356582423840479706338887835815469148641894351410375439122640410612036nat, 5525811385978941805988316181316987442586824224688081680659180990281547131501nat, 10266433404252336196676654957462200968007864348097361627835314862830854738953nat, group_prime());
        lemma_mod_by_quotient(20532866808504672393353309914924401936015728696194723255670629725661709477906nat, 0nat, 20532866808504672393353309914924401936015728696194723255670629725661709477906nat, group_prime());
    }
    assert(pow_mod_by_squaring(2, 9953620461528441966150424261858131598590403499337218664863502406nat, group_prime()) == 12513522427574198152472922768336731489590135871157240589997191720779315877167nat) by {
        lemma_square_step(9953620461528441966150424261858131598590403499337218664863502406nat, 20532866808504672393353309914924401936015728696194723255670629725661709477906nat);
        lemma_mod_by_quotient(421598619375792850933050888162790070652132467598329167589589883863728422769659634163802259730884638133525673538079558806897513523893848144850631102144836nat, 19261419102682215442366566322318514646118148205634392089473071079394862754243nat, 12513522427574198152472922768336731489590135871157240589997191720779315877167nat, group_prime());
    }
    assert(pow_mod_by_squaring(2, 19907240923056883932300848523716263197180806998674437329727004812nat, group_prime()) == 1602246774960360082453244611933444295934671919648983553198344928348738330030nat) by {
        lemma_square_step(19907240923056883932300848523716263197180806998674437329727004812nat, 12513522427574198152472922768336731489590135871157240589997191720779315877167nat);
        lemma_mod_by_quotient(156588243545402453246353472661944547829185571138303629442396784805822075584504519743668876168327131678486415720275070777990394543284272150884570631945889nat, 7153988762929159647727750804507813655940417509650652653714710841223964157173nat, 1602246774960360082453244611933444295934671919648983553198344928348738330030nat, group_prime());
    }
    assert(pow_mod_by_squaring(2, 39814481846113767864601697047432526394361613997348874659454009624nat, group_prime()) == 21820640379301700101683039078231179166018345442992031458646080183742061211531nat) by {
        lemma_square_step(39814481846113767864601697047432526394361613997348874659454009624nat, 1602246774960360082453244611933444295934671919648983553198344928348738330030nat);
        lemma_mod_by_quotient(2567194727870874764900461858576088841310410959431148319250078364785311050117245684618765399564952001817875871693920814721978135222899598512113199800900nat, 117286469402884173489755132776385384105139394495881319977130422943038214143nat, 21820640379301700101683039078231179166018345442992031458646080183742061211531nat, group_prime());
    }
    assert(pow_mod_by_squaring(2, 79628963692227535729203394094865052788723227994697749318908019248nat, group_prime()) == 9403680401045172080679188408496491865440689193810881321032405704899399787506nat) by {
        lemma_square_step(79628963692227535729203394094865052788723227994697749318908019248nat, 21820640379301700101683039078231179166018345442992031458646080183742061211531nat);
        lemma_mod_by_quotient(476140346562811842483357679691127972132852036150109688512422426133139414997567315655256368777000287896861220477867692746428864260632955222004855527363961nat, 21753246679083547416024509796626129981905625483907759682239755009129526184385nat, 9403680401045172080679188408496491865440689193810881321032405704899399787506nat, group_prime());
    }
}

proof fn lemma_fermat_steps_27()
    requires
        pow_mod_by_squaring(2, 79628963692227535729203394094865052788723227994697749318908019248nat, group_prime()) == 9403680401045172080679188408496491865440689193810881321032405704899399787506nat,
    ensures
        pow_mod_by_squaring(2, 20385014705210249146676068888285453513913146366642623825640452927579nat, group_prime()) == 11986704351331892116522294315748206728808240689387134373171449519836662256744nat,
{
    assert(pow_mod_by_squaring(2, 159257927384455071458406788189730105577446455989395498637816038496nat, group_prime()) == 4415462073898317492928561821027355761544813742826037659735701108290225451508nat) by {
        lemma_square_step(159257927384455071458406788189730105577446455989395498637816038496nat, 9403680401045172080679188408496491865440689193810881321032405704899399787506nat);
        lemma_mod_by_quotient(88429205085001088420512590128002571971309725714309819956888494494277721242708919806647660535974380247335599957055354318625996134244084646213837953700036nat, 4040032158029977002679766864217964305224547195566878925945689527393173066416nat, 4415462073898317492928561821027355761544813742826037659735701108290225451508nat, group_prime());
    }
    assert(pow_mod_by_squaring(2, 318515854768910142916813576379460211154892911978790997275632076993nat, group_prime()) == 18281799712948148878542185705532505531577605539516070829988443818112127835990nat) by {
        lemma_square_double_step(318515854768910142916813576379460211154892911978790997275632076993nat, 4415462073898317492928561821027355761544813742826037659735701108290225451508nat);
        lemma_mod_by_quotient(19496305326034430968883995156465663238485035180270103573501109563000200661878413899211422466298674723215063699668208815703238716116702554431022459474064nat, 890720440201153110344375620083631135765741108049542537709990077640860989043nat, 9140899856474074439271092852766252765788802769758035414994221909056063917995nat, group_prime());
        lemma_mod_by_quotient(18281799712948148878542185705532505531577605539516070829988443818112127835990nat, 0nat, 18281799712948148878542185705532505531577605539516070829988443818112127835990nat, group_prime());
    }
    assert(pow_mod_by_squaring(2, 637031709537820285833627152758920422309785823957581994551264153986nat, group_prime()) == 6990316591210333490330671386214116283109292871430463923745768421264355599875nat) by {
        lemma_square_step(637031709537820285833627152758920422309785823957581994551264153986nat, 18281799712948148878542185705532505531577605539516070829988443818112127835990nat);
        lemma_mod_by_quotient(334224200744351018734230293518390157288698284079820997961939330539894702323601591468277869897609291159816180126910938333330751928052639471243800339280100nat, 15269576580509957804370083207481476087316877001592036035646473174632895015575nat, 6990316591210333490330671386214116283109292871430463923745768421264355599875nat, group_prime());
    }
    assert(pow_mod_by_squaring(2, 1274063419075640571667254305517840844619571647915163989102528307973nat, group_prime()) == 1516665235914887692539939457247379413736448373728061927786079631137374173152nat) by {
        lemma_square_double_step(1274063419075640571667254305517840844619571647915163989102528307973nat, 6990316591210333490330671386214116283109292871430463923745768421264355599875nat);
        lemma_mod_by_quotient(48864526045350456655247100711597694097964735546721980232381871570461488455378728003466131964756358715739781006290644783583550976922456977935271100015625nat, 2232455402266118803765306351819316822488061950947904986139841373625220915103nat, 758332617957443846269969728623689706868224186864030963893039815568687086576nat, group_prime());
        lemma_mod_by_quotient(1516665235914887692539939457247379413736448373728061927786079631137374173152nat, 0nat, 1516665235914887692539939457247379413736448373728061927786079631137374173152nat, group_prime());
    }
    assert(pow_mod_by_squaring(2, 2548126838151281143334508611035681689239143295830327978205056615947nat, group_prime()) == 5262036330631897008232772242392525483170496602635574089999488706237418572725nat) by {
        lemma_square_double_step(2548126838151281143334508611035681689239143295830327978205056615947nat, 1516665235914887692539939457247379413736448373728061927786079631137374173152nat);
        lemma_mod_by_quotient(2300273437832761940246409537584793095350615268867177099147764138845026510372024192074476208579747851050105569832594234331223807507380197273195677615104nat, 105091735837426282837009051691946836215822892059604795528443410579432439150nat, 13575139601235586115239588993824900285933403879966698876344263300441322390654nat, group_prime());
        lemma_mod_by_quotient(27150279202471172230479177987649800571866807759933397752688526600882644781308nat, 1nat, 5262036330631897008232772242392525483170496602635574089999488706237418572725nat, group_prime());
    }
    assert(pow_mod_by_squaring(2, 5096253676302562286669017222071363378478286591660655956410113231894nat, group_prime()) == 7810917573524253288917930370286924883758089487119959483596470857761526325129nat) by {
        lemma_square_step(5096253676302562286669017222071363378478286591660655956410113231894nat, 5262036330631897008232772242392525483170496602635574089999488706237418572725nat);
        lemma_mod_by_quotient(27689026344889998928677607101183598656868671560006756175800702650793950731594251872835184822601316710944492816016854288938893045172921866374776113925625nat, 1265018234081906558954444418043247550867937116308821986321982889487255082512nat, 7810917573524253288917930370286924883758089487119959483596470857761526325129nat, group_prime());
    }
    assert(pow_mod_by_squaring(2, 10192507352605124573338034444142726756956573183321311912820226463789nat, group_prime()) == 7080169627287504455008264212425219362511036851785077645059249290233282802470nat) by {
        lemma_square_double_step(10192507352605124573338034444142726756956573183321311912820226463789nat, 7810917573524253288917930370286924883758089487119959483596470857761526325129nat);
        lemma_mod_by_quotient(61010433340390008783499058479070344227752638823837180828887969782478105107950739459920499867012334993784619450921133592311500465749432874970479416866641nat, 2787360945217037646179226627578281382539141124113717704029364998220407315282nat, 3540084813643752227504132106212609681255518425892538822529624645116641401235nat, group_prime());
        lemma_mod_by_quotient(7080169627287504455008264212425219362511036851785077645059249290233282802470nat, 0nat, 7080169627287504455008264212425219362511036851785077645059249290233282802470nat, group_prime());
    }
    assert(pow_mod_by_squaring(2, 20385014705210249146676068888285453513913146366642623825640452927579nat, group_prime()) == 11986704351331892116522294315748206728808240689387134373171449519836662256744nat) by {
        lemma_square_double_step(20385014705210249146676068888285453513913146366642623825640452927579nat, 7080169627287504455008264212425219362511036851785077645059249290233282802470nat);
        lemma_mod_by_quotient(50128801951164479749036059433257827299304593279928190261982539559233100597495080743328211052214526936325111257305492448697443347185536358528257038100900nat, 2290215904706476896923923840627182432853508020506532941786867585810357894416nat, 5993352175665946058261147157874103364404120344693567186585724759918331128372nat, group_prime());
        lemma_mod_by_quotient(11986704351331892116522294315748206728808240689387134373171449519836662256744nat, 0nat, 11986704351331892116522294315748206728808240689387134373171449519836662256744nat, group_prime());
    }
}

proof fn lemma_fermat_steps_28()
    requires
        pow_mod_by_squaring(2, 20385014705210249146676068888285453513913146366642623825640452927579nat, group_prime()) == 11986704351331892116522294315748206728808240689387134373171449519836662256744nat,
    ensures
        pow_mod_by_squaring(2, 5218563764533823781549073635401076099561765469860511699363955949460321nat, group_prime()) == 5359920676222085203118540120551635136583719423472016562112628560378780234347nat,
{
    assert(pow_mod_by_squaring(2, 40770029410420498293352137776570907027826292733285247651280905855158nat, group_prime()) == 5521357985998391515367169352984305362846265632191234843962302029199487918561nat) by {
        lemma_square_step(40770029410420498293352137776570907027826292733285247651280905855158nat, 11986704351331892116522294315748206728808240689387134373171449519836662256744nat);
        lemma_mod_by_quotient(143681081206238916555470920903172843020836111693386104017270127780853463050749065898139412393826467516812905620721760461438928967692430344131962973481536nat, 6564304044300169754809457033068222032724224996764133672261716520440200054825nat, 5521357985998391515367169352984305362846265632191234843962302029199487918561nat, group_prime());
    }
    assert(pow_mod_by_squaring(2, 81540058820840996586704275553141814055652585466570495302561811710317nat, group_prime()) == 2461877988584894625634118478526870108060176115119350815987323655637702995183nat) by {
        lemma_square_double_step(81540058820840996586704275553141814055652585466570495302561811710317nat, 5521357985998391515367169352984305362846265632191234843962302029199487918561nat);
        lemma_mod_by_quotient(30485394009548214157054327045851508747969056290100624248136283649884184924831105229476233738027743924107683447989894562078271340470269550189800168310721nat, 1392774842094326500856397067340588207255463201612118333861834443604285362986nat, 12175060430212084923940262111892072598378243636208587239338180775141464601883nat, group_prime());
        lemma_mod_by_quotient(24350120860424169847880524223784145196756487272417174478676361550282929203766nat, 1nat, 2461877988584894625634118478526870108060176115119350815987323655637702995183nat, group_prime());
    }
    assert(pow_mod_by_squaring(2, 163080117641681993173408551106283628111305170933140990605123623420635nat, group_prime()) == 8336534827659328153345555088764491234009976972455001999192770529703209771412nat) by {
        lemma_square_double_step(163080117641681993173408551106283628111305170933140990605123623420635nat, 2461877988584894625634118478526870108060176115119350815987323655637702995183nat);
        lemma_mod_by_quotient(6060843230678806552638375371234379975946252647795732532362661173043218274192488569127743912217192025800570998989039703477861777713719017795369321203489nat, 276899487371665489312205329496271357129232328252935912786870250934208972401nat, 4168267413829664076672777544382245617004988486227500999596385264851604885706nat, group_prime());
        lemma_mod_by_quotient(8336534827659328153345555088764491234009976972455001999192770529703209771412nat, 0nat, 8336534827659328153345555088764491234009976972455001999192770529703209771412nat, group_prime());
    }
    assert(pow_mod_by_squaring(2, 326160235283363986346817102212567256222610341866281981210247246841270nat, group_prime()) == 4064883921097246331296415031337976770715548119173750331582597883923082400502nat) by {
        lemma_square_step(326160235283363986346817102212567256222610341866281981210247246841270nat, 8336534827659328153345555088764491234009976972455001999192770529703209771412nat);
        lemma_mod_by_quotient(69497812932776944155008346740058574952509854226658300930764430720525667190439775819322115017839555479951201742978666971467642185936624616505317292473744nat, 3175120695603695269667057459767638340393230207000125567499584384306583610774nat, 4064883921097246331296415031337976770715548119173750331582597883923082400502nat, group_prime());
    }
    assert(pow_mod_by_squaring(2, 652320470566727972693634204425134512445220683732563962420494493682540nat, group_prime()) == 8407159549529605728539536114607883692537022110629816789286388750049379412114nat) by {
        lemma_square_step(652320470566727972693634204425134512445220683732563962420494493682540nat, 4064883921097246331296415031337976770715548119173750331582597883923082400502nat);
        lemma_mod_by_quotient(16523281291994924337935529940607517893495868823296063405776323659445074218989571140212696307988323723129171293484912097082647526910127792648534729852004nat, 754892998434938708740070391162667664369237612757367468178284923193497052830nat, 8407159549529605728539536114607883692537022110629816789286388750049379412114nat, group_prime());
    }
    assert(pow_mod_by_squaring(2, 1304640941133455945387268408850269024890441367465127924840988987365080nat, group_prime()) == 5063713273585170341325617043021014683582628191593764491846180849585420909347nat) by {
        lemma_square_step(1304640941133455945387268408850269024890441367465127924840988987365080nat, 8407159549529605728539536114607883692537022110629816789286388750049379412114nat);
        lemma_mod_by_quotient(70680331691246843117073007967613948370597509520828164178883883474855933438004299728378908190274420998411871768949705662795540280116564961340724249948996nat, 3229145989703080944897966765135105702131124564118818753365672339665936233303nat, 5063713273585170341325617043021014683582628191593764491846180849585420909347nat, group_prime());
    }
    assert(pow_mod_by_squaring(2, 2609281882266911890774536817700538049780882734930255849681977974730160nat, group_prime()) == 20965903512517725988102382086366833233682129944510934600743072000998810182462nat) by {
        lemma_square_step(2609281882266911890774536817700538049780882734930255849681977974730160nat, 5063713273585170341325617043021014683582628191593764491846180849585420909347nat);
        lemma_mod_by_quotient(25641192117082642178015359199688187295676563255816521171153439179899343631495978348720120714988604474587945017386927247277461920283910632306668391966409nat, 1171459594414122359934625486078767549311476211400789745428632400124590954909nat, 20965903512517725988102382086366833233682129944510934600743072000998810182462nat, group_prime());
    }
    assert(pow_mod_by_squaring(2, 5218563764533823781549073635401076099561765469860511699363955949460321nat, group_prime()) == 5359920676222085203118540120551635136583719423472016562112628560378780234347nat) by {
        lemma_square_double_step(5218563764533823781549073635401076099561765469860511699363955949460321nat, 20965903512517725988102382086366833233682129944510934600743072000998810182462nat);
        lemma_mod_by_quotient(439569110096203120368686845799005140306394992014811794642667170207383704420022025661270884311311468179330765778706077045028673731202428308589773732381444nat, 20082430219272599110368255028733079768631600339167381677204200905492850754813nat, 13624081774030680212682472932904455112640015290384920112400833227512003221465nat, group_prime());
        lemma_mod_by_quotient(27248163548061360425364945865808910225280030580769840224801666455024006442930nat, 1nat, 5359920676222085203118540120551635136583719423472016562112628560378780234347nat, group_prime());
    }
}

proof fn lemma_fermat_steps_29()
    requires
        pow_mod_by_squaring(2, 5218563764533823781549073635401076099561765469860511699363955949460321nat, group_prime()) == 5359920676222085203118540120551635136583719423472016562112628560378780234347nat,
    ensures
        pow_mod_by_squaring(2, 1335952323720658888076562850662675481487811960284290995037172723061842419nat, group_prime()) == 19057831576628266858050072487456892633625739377897797539790803001422525560224nat,
{
    assert(pow_mod_by_squaring(2, 10437127529067647563098147270802152199123530939721023398727911898920643nat, group_prime()) == 13982919666215146001420434495112977852511069095473061926841411134222415730504nat) by {
        lemma_square_double_step(10437127529067647563098147270802152199123530939721023398727911898920643nat, 5359920676222085203118540120551635136583719423472016562112628560378780234347nat);
        lemma_mod_by_quotient(28728749655393015120106767579604686610853083968461574857555485953920113688139879795953145849980762338920107887776358964115047054873404766571968238516409nat, 1312519685732952129995600209943384259262960053952829665731591645308498755779nat, 6991459833107573000710217247556488926255534547736530963420705567111207865252nat, group_prime());
        lemma_mod_by_quotient(13982919666215146001420434495112977852511069095473061926841411134222415730504nat, 0nat, 13982919666215146001420434495112977852511069095473061926841411134222415730504nat, group_prime());
    }
    assert(pow_mod_by_squaring(2, 20874255058135295126196294541604304398247061879442046797455823797841287nat, group_prime()) == 10915477320147133717466866506712236586353553809056943812639810123163783117380nat) by {
        lemma_square_double_step(20874255058135295126196294541604304398247061879442046797455823797841287nat, 13982919666215146001420434495112977852511069095473061926841411134222415730504nat);
        lemma_mod_by_quotient(195522042391826290064692402673887279413187738696569771626130790606679193441785971172953917015747055090333561287155060040243290481503086820247627956094016nat, 8932742730270907200245417168261281366977871372367234821410586447828762785522nat, 5457738660073566858733433253356118293176776904528471906319905061581891558690nat, group_prime());
        lemma_mod_by_quotient(10915477320147133717466866506712236586353553809056943812639810123163783117380nat, 0nat, 10915477320147133717466866506712236586353553809056943812639810123163783117380nat, group_prime());
    }
    assert(pow_mod_by_squaring(2, 41748510116270590252392589083208608796494123758884093594911647595682575nat, group_prime()) == 5942805734562843365947364591105687109148695180153889571234325739465656318974nat) by {
        lemma_square_double_step(41748510116270590252392589083208608796494123758884093594911647595682575nat, 10915477320147133717466866506712236586353553809056943812639810123163783117380nat);
        lemma_mod_by_quotient(119147645126646451912055386741785712147801594180078228096480249122604432555187167017609221486765618787254924032506813816632576627099267385018710858064400nat, 5443454087396757841515608566507700306118747763008080381016036555715657793511nat, 2971402867281421682973682295552843554574347590076944785617162869732828159487nat, group_prime());
        lemma_mod_by_quotient(5942805734562843365947364591105687109148695180153889571234325739465656318974nat, 0nat, 5942805734562843365947364591105687109148695180153889571234325739465656318974nat, group_prime());
    }
    assert(pow_mod_by_squaring(2, 83497020232541180504785178166417217592988247517768187189823295191365151nat, group_prime()) == 11788635079625760265301850180194727562881970971971721785290742742885593782842nat) by {
        lemma_square_double_step(83497020232541180504785178166417217592988247517768187189823295191365151nat, 5942805734562843365947364591105687109148695180153889571234325739465656318974nat);
        lemma_mod_by_quotient(35316939998753016321308509923013844479094546825254989384658919472564985172228619525879995702312866717699530168764116483136822683652040350972415632412676nat, 1613511884235836967018879939302673948439065361904365491004043884897476549985nat, 5894317539812880132650925090097363781440985485985860892645371371442796891421nat, group_prime());
        lemma_mod_by_quotient(11788635079625760265301850180194727562881970971971721785290742742885593782842nat, 0nat, 11788635079625760265301850180194727562881970971971721785290742742885593782842nat, group_prime());
    }
    assert(pow_mod_by_squaring(2, 166994040465082361009570356332834435185976495035536374379646590382730302nat, group_prime()) == 349700785285401748682317815113664716488190930548142090276624113678861147425nat) by {
        lemma_square_step(166994040465082361009570356332834435185976495035536374379646590382730302nat, 11788635079625760265301850180194727562881970971971721785290742742885593782842nat);
        lemma_mod_by_quotient(138971917040583055070555051025322714719866177147678372606352263956266023976612235415835196397731789284147009502807145584600899720167547613736403453596964nat, 6349158214951093773370273520016589278664483531480789219109118898724636876133nat, 349700785285401748682317815113664716488190930548142090276624113678861147425nat, group_prime());
    }
    assert(pow_mod_by_squaring(2, 333988080930164722019140712665668870371952990071072748759293180765460604nat, group_prime()) == 241421758258588778373003065736167958605871638551939549076831941172386450548nat) by {
        lemma_square_step(333988080930164722019140712665668870371952990071072748759293180765460604nat, 349700785285401748682317815113664716488190930548142090276624113678861147425nat);
        lemma_mod_by_quotient(122290639229226656190612669280391729880964681649924911401478826684689563368390617849444273987994605568438142113733687107290731474058175533187584130625nat, 5587046888380517101018694243711214515420456729186545393630241228750099019nat, 241421758258588778373003065736167958605871638551939549076831941172386450548nat, group_prime());
    }
    assert(pow_mod_by_squaring(2, 667976161860329444038281425331337740743905980142145497518586361530921209nat, group_prime()) == 20212264416967750213922917130377279488317588277795602709165602452670749430247nat) by {
        lemma_square_double_step(667976161860329444038281425331337740743905980142145497518586361530921209nat, 241421758258588778373003065736167958605871638551939549076831941172386450548nat);
        lemma_mod_by_quotient(58284465360668479014633716039272563556871492888973537143229323298905800745250787012605571666813955746381695217911679970664897929123795668538049500304nat, 2662820661390569582566599830132208317766698025247559667408664199093019583nat, 21050253644403512718084661437817277288506949717546713185927320173657987819415nat, group_prime());
        lemma_mod_by_quotient(42100507288807025436169322875634554577013899435093426371854640347315975638830nat, 1nat, 20212264416967750213922917130377279488317588277795602709165602452670749430247nat, group_prime());
    }
    assert(pow_mod_by_squaring(2, 1335952323720658888076562850662675481487811960284290995037172723061842419nat, group_prime()) == 19057831576628266858050072487456892633625739377897797539790803001422525560224nat) by {
        lemma_square_double_step(1335952323720658888076562850662675481487811960284290995037172723061842419nat, 20212264416967750213922917130377279488317588277795602709165602452670749430247nat);
        lemma_mod_by_quotient(408535632861420667481837671839030889582076252528357153559722416411190105385468905593890023301351577269512760667724962064698007283348917129464675118481009nat, 18664615302995827139333837086968689751481660687296451413533209668731740441559nat, 9528915788314133429025036243728446316812869688948898769895401500711262780112nat, group_prime());
        lemma_mod_by_quotient(19057831576628266858050072487456892633625739377897797539790803001422525560224nat, 0nat, 19057831576628266858050072487456892633625739377897797539790803001422525560224nat, group_prime());
    }
}

proof fn lemma_fermat_steps_30()
    requires
        pow_mod_by_squaring(2, 1335952323720658888076562850662675481487811960284290995037172723061842419nat, group_prime()) == 19057831576628266858050072487456892633625739377897797539790803001422525560224nat,
    ensures
        pow_mod_by_squaring(2, 342003794872488675347600089769644923260879861832778494729516217103831659509nat, group_prime()) == 15005346886344338695114246438261676666350836052676339702716097737657699600810nat,
{
    assert(pow_mod_by_squaring(2, 2671904647441317776153125701325350962975623920568581990074345446123684839nat, group_prime()) == 20190586496815480588345867217304205708676510510593928740046783217888937426461nat) by {
        lemma_square_double_step(2671904647441317776153125701325350962975623920568581990074345446123684839nat, 19057831576628266858050072487456892633625739377897797539790803001422525560224nat);
        lemma_mod_by_quotient(363200944403129451707396681726013774676644910509637382433242003635092371859159650141121632478883148794951227873873566762222281940699218713490605050930176nat, 16593426275912369474998365162943401448552267165357609083874270807329617065538nat, 21039414684327377905296136481280740398686410833945876201367910556267081817522nat, group_prime());
        lemma_mod_by_quotient(42078829368654755810592272962561480797372821667891752402735821112534163635044nat, 1nat, 20190586496815480588345867217304205708676510510593928740046783217888937426461nat, group_prime());
    }
    assert(pow_mod_by_squaring(2, 5343809294882635552306251402650701925951247841137163980148690892247369679nat, group_prime()) == 12785766090891236505653163790365997896374383479588839893110813666676325228663nat) by {
        lemma_square_double_step(5343809294882635552306251402650701925951247841137163980148690892247369679nat, 20190586496815480588345867217304205708676510510593928740046783217888937426461nat);
        lemma_mod_by_quotient(407659783085387620726277411820191708358814065319574394755487841771354631396029721343189366337549426233883064637552470010969692573113302758237105782984521nat, 18624600680480838166541938527196458220003256084903806287535545813475617556806nat, 17337004481365255863949784767811636492535347318443331777899925780660775718623nat, group_prime());
        lemma_mod_by_quotient(34674008962730511727899569535623272985070694636886663555799851561321551437246nat, 1nat, 12785766090891236505653163790365997896374383479588839893110813666676325228663nat, group_prime());
    }
    assert(pow_mod_by_squaring(2, 10687618589765271104612502805301403851902495682274327960297381784494739359nat, group_prime()) == 14264336986397822428959815575754096714573145130458417826993411614532898126322nat) by {
        lemma_square_double_step(10687618589765271104612502805301403851902495682274327960297381784494739359nat, 12785766090891236505653163790365997896374383479588839893110813666676325228663nat);
        lemma_mod_by_quotient(163475814530984171085094932293163751037813164685015785149697718595112497089259868572141979155445805644765566262450178612434494618568286432042059236767569nat, 7468658653331511223340426848375538346365721333661394897212222019693351468776nat, 7132168493198911214479907787877048357286572565229208913496705807266449063161nat, group_prime());
        lemma_mod_by_quotient(14264336986397822428959815575754096714573145130458417826993411614532898126322nat, 0nat, 14264336986397822428959815575754096714573145130458417826993411614532898126322nat, group_prime());
    }
    assert(pow_mod_by_squaring(2, 21375237179530542209225005610602807703804991364548655920594763568989478719nat, group_prime()) == 7072935611585499150723228119124324013814882269803279315261881206730172894848nat) by {
        lemma_square_double_step(21375237179530542209225005610602807703804991364548655920594763568989478719nat, 14264336986397822428959815575754096714573145130458417826993411614532898126322nat);
        lemma_mod_by_quotient(203471309661516910570701972334919580723892269884824400417014360209781997766911712242510982629336792096227651245892667188704868603762208220453498269247684nat, 9295917943385793536262818154126830941043819751585934356588489127254697264220nat, 3536467805792749575361614059562162006907441134901639657630940603365086447424nat, group_prime());
        lemma_mod_by_quotient(7072935611585499150723228119124324013814882269803279315261881206730172894848nat, 0nat, 7072935611585499150723228119124324013814882269803279315261881206730172894848nat, group_prime());
    }
    assert(pow_mod_by_squaring(2, 42750474359061084418450011221205615407609982729097311841189527137978957438nat, group_prime()) == 1805882366712962424220062746904571365886868433480735095077712465320583868037nat) by {
        lemma_square_step(42750474359061084418450011221205615407609982729097311841189527137978957438nat, 7072935611585499150723228119124324013814882269803279315261881206730172894848nat);
        lemma_mod_by_quotient(50026418165634338908063962392759584305757313356846759525961883265267407856087670881625155863839356898991740226455828412272588491355763309746708464943104nat, 2285538334828911960045280475212547582299016869578499321637488645552343061549nat, 1805882366712962424220062746904571365886868433480735095077712465320583868037nat, group_prime());
    }
    assert(pow_mod_by_squaring(2, 85500948718122168836900022442411230815219965458194623682379054275957914877nat, group_prime()) == 17191863474790836567863431474574253002587971466336750938498937506265065897935nat) by {
        lemma_square_double_step(85500948718122168836900022442411230815219965458194623682379054275957914877nat, 1805882366712962424220062746904571365886868433480735095077712465320583868037nat);
        lemma_mod_by_quotient(3261211122404810495547560654446721743866050317952377708321683324466023194451578582039941537838619089744661280195295361820672267381553978855564630233369nat, 148993737939585006308247698383912233717652272925996077200524066917854087170nat, 19540053173315055895054918609915764045642141311817287300593987700455146053259nat, group_prime());
        lemma_mod_by_quotient(39080106346630111790109837219831528091284282623634574601187975400910292106518nat, 1nat, 17191863474790836567863431474574253002587971466336750938498937506265065897935nat, group_prime());
    }
    assert(pow_mod_by_squaring(2, 171001897436244337673800044884822461630439930916389247364758108551915829754nat, group_prime()) == 17051925321636142616436309786893199110785277500766879511446382803663782721124nat) by {
        lemma_square_step(171001897436244337673800044884822461630439930916389247364758108551915829754nat, 17191863474790836567863431474574253002587971466336750938498937506265065897935nat);
        lemma_mod_by_quotient(295560169735847257286535122053140131648183562221335713935970315106486586137040083166764889259864110456196023853656118916100849698212938830468087837264225nat, 13503147395906579359830681251592843981689013757304895791629485395732648705947nat, 17051925321636142616436309786893199110785277500766879511446382803663782721124nat, group_prime());
    }
    assert(pow_mod_by_squaring(2, 342003794872488675347600089769644923260879861832778494729516217103831659509nat, group_prime()) == 15005346886344338695114246438261676666350836052676339702716097737657699600810nat) by {
        lemma_square_double_step(342003794872488675347600089769644923260879861832778494729516217103831659509nat, 17051925321636142616436309786893199110785277500766879511446382803663782721124nat);
        lemma_mod_by_quotient(290768157174655865819359680706294945634419965838703128628586972092571498608119995221445054068367589099695085044439142830578384173445204362006781955823376nat, 13284216502766836100940241319379019394224682847247639688035171800441891433837nat, 7502673443172169347557123219130838333175418026338169851358048868828849800405nat, group_prime());
        lemma_mod_by_quotient(15005346886344338695114246438261676666350836052676339702716097737657699600810nat, 0nat, 15005346886344338695114246438261676666350836052676339702716097737657699600810nat, group_prime());
    }
}

proof fn lemma_fermat_steps_31()
    requires
        pow_mod_by_squaring(2, 342003794872488675347600089769644923260879861832778494729516217103831659509nat, group_prime()) == 15005346886344338695114246438261676666350836052676339702716097737657699600810nat,
    ensures
        pow_mod_by_squaring(2, 21888242871839275222246405745257275088696311157297823662689037894645226208582nat, group_prime()) == 1nat,
{
    assert(pow_mod_by_squaring(2, 684007589744977350695200179539289846521759723665556989459032434207663319018nat, group_prime()) == 2760710580154682296048368937256915201756741557323296575399836061072777954631nat) by {
        lemma_square_step(684007589744977350695200179539289846521759723665556989459032434207663319018nat, 15005346886344338695114246438261676666350836052676339702716097737657699600810nat);
        lemma_mod_by_quotient(225160435179523740129042291550165864401064657365308765543278439633280104507934124450222248578954921998821000975113674226153184278204257498845633352656100nat, 10286820943000777533536914529183899337414510939376727652661617948740533902843nat, 2760710580154682296048368937256915201756741557323296575399836061072777954631nat, group_prime());
    }
    assert(pow_mod_by_squaring(2, 1368015179489954701390400359078579693043519447331113978918064868415326638036nat, group_prime()) == 20227089230968644799564036739120689643446356955795239690135609902768513201544nat) by {
        lemma_square_step(1368015179489954701390400359078579693043519447331113978918064868415326638036nat, 2760710580154682296048368937256915201756741557323296575399836061072777954631nat);
        lemma_mod_by_quotient(7621522907378002502502775246367839203847640731917638106981190209598468080139644574580737754938393794645968534439985353603609600069888127662271894346161nat, 348201678499447488216496221951443024764519384294122715670871292551808240399nat, 20227089230968644799564036739120689643446356955795239690135609902768513201544nat, group_prime());
    }
    assert(pow_mod_by_squaring(2, 2736030358979909402780800718157159386087038894662227957836129736830653276072nat, group_prime()) == 2163880481509888333219077321763537493568952416548680222627090993321596722261nat) by {
        lemma_square_step(2736030358979909402780800718157159386087038894662227957836129736830653276072nat, 20227089230968644799564036739120689643446356955795239690135609902768513201544nat);
        lemma_mod_by_quotient(409135138757567722486852745190107295223159182882515814751533806064745778463731298374774775575772003101204444916716477483082401767204788718323408763983936nat, 18692004705592339828498235791035554574496390484407573375805976049188851633725nat, 2163880481509888333219077321763537493568952416548680222627090993321596722261nat, group_prime());
    }
    assert(pow_mod_by_squaring(2, 5472060717959818805561601436314318772174077789324455915672259473661306552145nat, group_prime()) == 19903346589228502899509936149409833946954635094199845184512007029673941904195nat) by {
        lemma_square_double_step(5472060717959818805561601436314318772174077789324455915672259473661306552145nat, 2163880481509888333219077321763537493568952416548680222627090993321596722261nat);
        lemma_mod_by_quotient(4682378738259466184744756739140679389523262702043768315298920981123281531933540571569423959235197855812801238815185392986342508803815842115018772952121nat, 213922093503616381367047410170764955536684842242534894098938120466547165804nat, 20895794730533889060878170947333554517825473125748834423600522462159584056389nat, group_prime());
        lemma_mod_by_quotient(41791589461067778121756341894667109035650946251497668847201044924319168112778nat, 1nat, 19903346589228502899509936149409833946954635094199845184512007029673941904195nat, group_prime());
    }
    assert(pow_mod_by_squaring(2, 10944121435919637611123202872628637544348155578648911831344518947322613104291nat, group_prime()) == 1nat) by {
        lemma_square_double_step(10944121435919637611123202872628637544348155578648911831344518947322613104291nat, 19903346589228502899509936149409833946954635094199845184512007029673941904195nat);
        lemma_mod_by_quotient(396143205450953879732127608437012473680502009948214785846440864566583571007041016891581247982905944345627508379434581596793853119385166863539982558598025nat, 18098447087345657474570735588341845653339668565390156497986803892291347432051nat, 10944121435919637611123202872628637544348155578648911831344518947322613104292nat, group_prime());
        lemma_mod_by_quotient(21888242871839275222246405745257275088696311157297823662689037894645226208584nat, 1nat, 1nat, group_prime());
    }
    assert(pow_mod_by_squaring(2, 21888242871839275222246405745257275088696311157297823662689037894645226208582nat, group_prime()) == 1nat) by {
        lemma_square_step(21888242871839275222246405745257275088696311157297823662689037894645226208582nat, 1nat);
        lemma_mod_by_quotient(1nat, 0nat, 1nat, group_prime());
    }
}

/// `2^(p-1) = 1 (mod p)` for the group modulus `p`, checked by repeated squaring.
pub proof fn lemma_two_has_order_dividing_p_minus_one()
    ensures
        pow(2, (group_prime() - 1) as nat) % (group_prime() as int) == 1,
{
    assert(pow_mod_by_squaring(2, 0, group_prime()) == 1);
    lemma_fermat_steps_0();
    lemma_fermat_steps_1();
    lemma_fermat_steps_2();
    lemma_fermat_steps_3();
    lemma_fermat_steps_4();
    lemma_fermat_steps_5();
    lemma_fermat_steps_6();
    lemma_fermat_steps_7();
    lemma_fermat_steps_8();
    lemma_fermat_steps_9();
    lemma_fermat_steps_10();
    lemma_fermat_steps_11();
    lemma_fermat_steps_12();
    lemma_fermat_steps_13();
    lemma_fermat_steps_14();
    lemma_fermat_steps_15();
    lemma_fermat_steps_16();
    lemma_fermat_steps_17();
    lemma_fermat_steps_18();
    lemma_fermat_steps_19();
    lemma_fermat_steps_20();
    lemma_fermat_steps_21();
    lemma_fermat_steps_22();
    lemma_fermat_steps_23();
    lemma_fermat_steps_24();
    lemma_fermat_steps_25();
    lemma_fermat_steps_26();
    lemma_fermat_steps_27();
    lemma_fermat_steps_28();
    lemma_fermat_steps_29();
    lemma_fermat_steps_30();
    lemma_fermat_steps_31();
    lemma_pow_mod_by_squaring(2, (group_prime() - 1) as nat, group_prime());
}

proof fn lemma_prime_digits_0()
    requires
        PRIME@ =~= seq!['2', '1', '8', '8', '8', '2', '4', '2', '8', '7', '1', '8', '3', '9', '2', '7', '5', '2', '2', '2', '2', '4', '6', '4', '0', '5', '7', '4', '5', '2', '5', '7', '2', '7', '5', '0', '8', '8', '6', '9', '6', '3', '1', '1', '1', '5', '7', '2', '9', '7', '8', '2', '3', '6', '6', '2', '6', '8', '9', '0', '3', '7', '8', '9', '4', '6', '4', '5', '2', '2', '6', '2', '0', '8', '5', '8', '3'],
        decimal_value(PRIME@.take(0)) == 0nat,
    ensures
        decimal_value(PRIME@.take(20)) == 21888242871839275222nat,
{
    assert(decimal_value(PRIME@.take(1)) == 2nat) by {
        assert(PRIME@.take(1).drop_last() =~= PRIME@.take(0));
    }
    assert(decimal_value(PRIME@.take(2)) == 21nat) by {
        assert(PRIME@.take(2).drop_last() =~= PRIME@.take(1));
    }
    assert(decimal_value(PRIME@.take(3)) == 218nat) by {
        assert(PRIME@.take(3).drop_last() =~= PRIME@.take(2));
    }
    assert(decimal_value(PRIME@.take(4)) == 2188nat) by {
        assert(PRIME@.take(4).drop_last() =~= PRIME@.take(3));
    }
    assert(decimal_value(PRIME@.take(5)) == 21888nat) by {
        assert(PRIME@.take(5).drop_last() =~= PRIME@.take(4));
    }
    assert(decimal_value(PRIME@.take(6)) == 218882nat) by {
        assert(PRIME@.take(6).drop_last() =~= PRIME@.take(5));
    }
    assert(decimal_value(PRIME@.take(7)) == 2188824nat) by {
        assert(PRIME@.take(7).drop_last() =~= PRIME@.take(6));
    }
    assert(decimal_value(PRIME@.take(8)) == 21888242nat) by {
        assert(PRIME@.take(8).drop_last() =~= PRIME@.take(7));
    }
    assert(decimal_value(PRIME@.take(9)) == 218882428nat) by {
        assert(PRIME@.take(9).drop_last() =~= PRIME@.take(8));
    }
    assert(decimal_value(PRIME@.take(10)) == 2188824287nat) by {
        assert(PRIME@.take(10).drop_last() =~= PRIME@.take(9));
    }
    assert(decimal_value(PRIME@.take(11)) == 21888242871nat) by {
        assert(PRIME@.take(11).drop_last() =~= PRIME@.take(10));
    }
    assert(decimal_value(PRIME@.take(12)) == 218882428718nat) by {
        assert(PRIME@.take(12).drop_last() =~= PRIME@.take(11));
    }
    assert(decimal_value(PRIME@.take(13)) == 2188824287183nat) by {
        assert(PRIME@.take(13).drop_last() =~= PRIME@.take(12));
    }
    assert(decimal_value(PRIME@.take(14)) == 21888242871839nat) by {
        assert(PRIME@.take(14).drop_last() =~= PRIME@.take(13));
    }
    assert(decimal_value(PRIME@.take(15)) == 218882428718392nat) by {
        assert(PRIME@.take(15).drop_last() =~= PRIME@.take(14));
    }
    assert(decimal_value(PRIME@.take(16)) == 2188824287183927nat) by {
        assert(PRIME@.take(16).drop_last() =~= PRIME@.take(15));
    }
    assert(decimal_value(PRIME@.take(17)) == 21888242871839275nat) by {
        assert(PRIME@.take(17).drop_last() =~= PRIME@.take(16));
    }
    assert(decimal_value(PRIME@.take(18)) == 218882428718392752nat) by {
        assert(PRIME@.take(18).drop_last() =~= PRIME@.take(17));
    }
    assert(decimal_value(PRIME@.take(19)) == 2188824287183927522nat) by {
        assert(PRIME@.take(19).drop_last() =~= PRIME@.take(18));
    }
    assert(decimal_value(PRIME@.take(20)) == 21888242871839275222nat) by {
        assert(PRIME@.take(20).drop_last() =~= PRIME@.take(19));
    }
}

proof fn lemma_prime_digits_1()
    requires
        PRIME@ =~= seq!['2', '1', '8', '8', '8', '2', '4', '2', '8', '7', '1', '8', '3', '9', '2', '7', '5', '2', '2', '2', '2', '4', '6', '4', '0', '5', '7', '4', '5', '2', '5', '7', '2', '7', '5', '0', '8', '8', '6', '9', '6', '3', '1', '1', '1', '5', '7', '2', '9', '7', '8', '2', '3', '6', '6', '2', '6', '8', '9', '0', '3', '7', '8', '9', '4', '6', '4', '5', '2', '2', '6', '2', '0', '8', '5', '8', '3'],
        decimal_value(PRIME@.take(20)) == 21888242871839275222nat,
    ensures
        decimal_value(PRIME@.take(40)) == 2188824287183927522224640574525727508869nat,
{
    assert(decimal_value(PRIME@.take(21)) == 218882428718392752222nat) by {
        assert(PRIME@.take(21).drop_last() =~= PRIME@.take(20));
    }
    assert(decimal_value(PRIME@.take(22)) == 2188824287183927522224nat) by {
        assert(PRIME@.take(22).drop_last() =~= PRIME@.take(21));
    }
    assert(decimal_value(PRIME@.take(23)) == 21888242871839275222246nat) by {
        assert(PRIME@.take(23).drop_last() =~= PRIME@.take(22));
    }
    assert(decimal_value(PRIME@.take(24)) == 218882428718392752222464nat) by {
        assert(PRIME@.take(24).drop_last() =~= PRIME@.take(23));
    }
    assert(decimal_value(PRIME@.take(25)) == 2188824287183927522224640nat) by {
        assert(PRIME@.take(25).drop_last() =~= PRIME@.take(24));
    }
    assert(decimal_value(PRIME@.take(26)) == 21888242871839275222246405nat) by {
        assert(PRIME@.take(26).drop_last() =~= PRIME@.take(25));
    }
    assert(decimal_value(PRIME@.take(27)) == 218882428718392752222464057nat) by {
        assert(PRIME@.take(27).drop_last() =~= PRIME@.take(26));
    }
    assert(decimal_value(PRIME@.take(28)) == 2188824287183927522224640574nat) by {
        assert(PRIME@.take(28).drop_last() =~= PRIME@.take(27));
    }
    assert(decimal_value(PRIME@.take(29)) == 21888242871839275222246405745nat) by {
        assert(PRIME@.take(29).drop_last() =~= PRIME@.take(28));
    }
    assert(decimal_value(PRIME@.take(30)) == 218882428718392752222464057452nat) by {
        assert(PRIME@.take(30).drop_last() =~= PRIME@.take(29));
    }
    assert(decimal_value(PRIME@.take(31)) == 2188824287183927522224640574525nat) by {
        assert(PRIME@.take(31).drop_last() =~= PRIME@.take(30));
    }
    assert(decimal_value(PRIME@.take(32)) == 21888242871839275222246405745257nat) by {
        assert(PRIME@.take(32).drop_last() =~= PRIME@.take(31));
    }
    assert(decimal_value(PRIME@.take(33)) == 218882428718392752222464057452572nat) by {
        assert(PRIME@.take(33).drop_last() =~= PRIME@.take(32));
    }
    assert(decimal_value(PRIME@.take(34)) == 2188824287183927522224640574525727nat) by {
        assert(PRIME@.take(34).drop_last() =~= PRIME@.take(33));
    }
    assert(decimal_value(PRIME@.take(35)) == 21888242871839275222246405745257275nat) by {
        assert(PRIME@.take(35).drop_last() =~= PRIME@.take(34));
    }
    assert(decimal_value(PRIME@.take(36)) == 218882428718392752222464057452572750nat) by {
        assert(PRIME@.take(36).drop_last() =~= PRIME@.take(35));
    }
    assert(decimal_value(PRIME@.take(37)) == 2188824287183927522224640574525727508nat) by {
        assert(PRIME@.take(37).drop_last() =~= PRIME@.take(36));
    }
    assert(decimal_value(PRIME@.take(38)) == 21888242871839275222246405745257275088nat) by {
        assert(PRIME@.take(38).drop_last() =~= PRIME@.take(37));
    }
    assert(decimal_value(PRIME@.take(39)) == 218882428718392752222464057452572750886nat) by {
        assert(PRIME@.take(39).drop_last() =~= PRIME@.take(38));
    }
    assert(decimal_value(PRIME@.take(40)) == 2188824287183927522224640574525727508869nat) by {
        assert(PRIME@.take(40).drop_last() =~= PRIME@.take(39));
    }
}

proof fn lemma_prime_digits_2()
    requires
        PRIME@ =~= seq!['2', '1', '8', '8', '8', '2', '4', '2', '8', '7', '1', '8', '3', '9', '2', '7', '5', '2', '2', '2', '2', '4', '6', '4', '0', '5', '7', '4', '5', '2', '5', '7', '2', '7', '5', '0', '8', '8', '6', '9', '6', '3', '1', '1', '1', '5', '7', '2', '9', '7', '8', '2', '3', '6', '6', '2', '6', '8', '9', '0', '3', '7', '8', '9', '4', '6', '4', '5', '2', '2', '6', '2', '0', '8', '5', '8', '3'],
        decimal_value(PRIME@.take(40)) == 2188824287183927522224640574525727508869nat,
    ensures
        decimal_value(PRIME@.take(60)) == 218882428718392752222464057452572750886963111572978236626890nat,
{
    assert(decimal_value(PRIME@.take(41)) == 21888242871839275222246405745257275088696nat) by {
        assert(PRIME@.take(41).drop_last() =~= PRIME@.take(40));
    }
    assert(decimal_value(PRIME@.take(42)) == 218882428718392752222464057452572750886963nat) by {
        assert(PRIME@.take(42).drop_last() =~= PRIME@.take(41));
    }
    assert(decimal_value(PRIME@.take(43)) == 2188824287183927522224640574525727508869631nat) by {
        assert(PRIME@.take(43).drop_last() =~= PRIME@.take(42));
    }
    assert(decimal_value(PRIME@.take(44)) == 21888242871839275222246405745257275088696311nat) by {
        assert(PRIME@.take(44).drop_last() =~= PRIME@.take(43));
    }
    assert(decimal_value(PRIME@.take(45)) == 218882428718392752222464057452572750886963111nat) by {
        assert(PRIME@.take(45).drop_last() =~= PRIME@.take(44));
    }
    assert(decimal_value(PRIME@.take(46)) == 2188824287183927522224640574525727508869631115nat) by {
        assert(PRIME@.take(46).drop_last() =~= PRIME@.take(45));
    }
    assert(decimal_value(PRIME@.take(47)) == 21888242871839275222246405745257275088696311157nat) by {
        assert(PRIME@.take(47).drop_last() =~= PRIME@.take(46));
    }
    assert(decimal_value(PRIME@.take(48)) == 218882428718392752222464057452572750886963111572nat) by {
        assert(PRIME@.take(48).drop_last() =~= PRIME@.take(47));
    }
    assert(decimal_value(PRIME@.take(49)) == 2188824287183927522224640574525727508869631115729nat) by {
        assert(PRIME@.take(49).drop_last() =~= PRIME@.take(48));
    }
    assert(decimal_value(PRIME@.take(50)) == 21888242871839275222246405745257275088696311157297nat) by {
        assert(PRIME@.take(50).drop_last() =~= PRIME@.take(49));
    }
    assert(decimal_value(PRIME@.take(51)) == 218882428718392752222464057452572750886963111572978nat) by {
        assert(PRIME@.take(51).drop_last() =~= PRIME@.take(50));
    }
    assert(decimal_value(PRIME@.take(52)) == 2188824287183927522224640574525727508869631115729782nat) by {
        assert(PRIME@.take(52).drop_last() =~= PRIME@.take(51));
    }
    assert(decimal_value(PRIME@.take(53)) == 21888242871839275222246405745257275088696311157297823nat) by {
        assert(PRIME@.take(53).drop_last() =~= PRIME@.take(52));
    }
    assert(decimal_value(PRIME@.take(54)) == 218882428718392752222464057452572750886963111572978236nat) by {
        assert(PRIME@.take(54).drop_last() =~= PRIME@.take(53));
    }
    assert(decimal_value(PRIME@.take(55)) == 2188824287183927522224640574525727508869631115729782366nat) by {
        assert(PRIME@.take(55).drop_last() =~= PRIME@.take(54));
    }
    assert(decimal_value(PRIME@.take(56)) == 21888242871839275222246405745257275088696311157297823662nat) by {
        assert(PRIME@.take(56).drop_last() =~= PRIME@.take(55));
    }
    assert(decimal_value(PRIME@.take(57)) == 218882428718392752222464057452572750886963111572978236626nat) by {
        assert(PRIME@.take(57).drop_last() =~= PRIME@.take(56));
    }
    assert(decimal_value(PRIME@.take(58)) == 2188824287183927522224640574525727508869631115729782366268nat) by {
        assert(PRIME@.take(58).drop_last() =~= PRIME@.take(57));
    }
    assert(decimal_value(PRIME@.take(59)) == 21888242871839275222246405745257275088696311157297823662689nat) by {
        assert(PRIME@.take(59).drop_last() =~= PRIME@.take(58));
    }
    assert(decimal_value(PRIME@.take(60)) == 218882428718392752222464057452572750886963111572978236626890nat) by {
        assert(PRIME@.take(60).drop_last() =~= PRIME@.take(59));
    }
}

proof fn lemma_prime_digits_3()
    requires
        PRIME@ =~= seq!['2', '1', '8', '8', '8', '2', '4', '2', '8', '7', '1', '8', '3', '9', '2', '7', '5', '2', '2', '2', '2', '4', '6', '4', '0', '5', '7', '4', '5', '2', '5', '7', '2', '7', '5', '0', '8', '8', '6', '9', '6', '3', '1', '1', '1', '5', '7', '2', '9', '7', '8', '2', '3', '6', '6', '2', '6', '8', '9', '0', '3', '7', '8', '9', '4', '6', '4', '5', '2', '2', '6', '2', '0', '8', '5', '8', '3'],
        decimal_value(PRIME@.take(60)) == 218882428718392752222464057452572750886963111572978236626890nat,
    ensures
        decimal_value(PRIME@.take(77)) == 21888242871839275222246405745257275088696311157297823662689037894645226208583nat,
{
    assert(decimal_value(PRIME@.take(61)) == 2188824287183927522224640574525727508869631115729782366268903nat) by {
        assert(PRIME@.take(61).drop_last() =~= PRIME@.take(60));
    }
    assert(decimal_value(PRIME@.take(62)) == 21888242871839275222246405745257275088696311157297823662689037nat) by {
        assert(PRIME@.take(62).drop_last() =~= PRIME@.take(61));
    }
    assert(decimal_value(PRIME@.take(63)) == 218882428718392752222464057452572750886963111572978236626890378nat) by {
        assert(PRIME@.take(63).drop_last() =~= PRIME@.take(62));
    }
    assert(decimal_value(PRIME@.take(64)) == 2188824287183927522224640574525727508869631115729782366268903789nat) by {
        assert(PRIME@.take(64).drop_last() =~= PRIME@.take(63));
    }
    assert(decimal_value(PRIME@.take(65)) == 21888242871839275222246405745257275088696311157297823662689037894nat) by {
        assert(PRIME@.take(65).drop_last() =~= PRIME@.take(64));
    }
    assert(decimal_value(PRIME@.take(66)) == 218882428718392752222464057452572750886963111572978236626890378946nat) by {
        assert(PRIME@.take(66).drop_last() =~= PRIME@.take(65));
    }
    assert(decimal_value(PRIME@.take(67)) == 2188824287183927522224640574525727508869631115729782366268903789464nat) by {
        assert(PRIME@.take(67).drop_last() =~= PRIME@.take(66));
    }
    assert(decimal_value(PRIME@.take(68)) == 21888242871839275222246405745257275088696311157297823662689037894645nat) by {
        assert(PRIME@.take(68).drop_last() =~= PRIME@.take(67));
    }
    assert(decimal_value(PRIME@.take(69)) == 218882428718392752222464057452572750886963111572978236626890378946452nat) by {
        assert(PRIME@.take(69).drop_last() =~= PRIME@.take(68));
    }
    assert(decimal_value(PRIME@.take(70)) == 2188824287183927522224640574525727508869631115729782366268903789464522nat) by {
        assert(PRIME@.take(70).drop_last() =~= PRIME@.take(69));
    }
    assert(decimal_value(PRIME@.take(71)) == 21888242871839275222246405745257275088696311157297823662689037894645226nat) by {
        assert(PRIME@.take(71).drop_last() =~= PRIME@.take(70));
    }
    assert(decimal_value(PRIME@.take(72)) == 218882428718392752222464057452572750886963111572978236626890378946452262nat) by {
        assert(PRIME@.take(72).drop_last() =~= PRIME@.take(71));
    }
    assert(decimal_value(PRIME@.take(73)) == 2188824287183927522224640574525727508869631115729782366268903789464522620nat) by {
        assert(PRIME@.take(73).drop_last() =~= PRIME@.take(72));
    }
    assert(decimal_value(PRIME@.take(74)) == 21888242871839275222246405745257275088696311157297823662689037894645226208nat) by {
        assert(PRIME@.take(74).drop_last() =~= PRIME@.take(73));
    }
    assert(decimal_value(PRIME@.take(75)) == 218882428718392752222464057452572750886963111572978236626890378946452262085nat) by {
        assert(PRIME@.take(75).drop_last() =~= PRIME@.take(74));
    }
    assert(decimal_value(PRIME@.take(76)) == 2188824287183927522224640574525727508869631115729782366268903789464522620858nat) by {
        assert(PRIME@.take(76).drop_last() =~= PRIME@.take(75));
    }
    assert(decimal_value(PRIME@.take(77)) == 21888242871839275222246405745257275088696311157297823662689037894645226208583nat) by {
        assert(PRIME@.take(77).drop_last() =~= PRIME@.take(76));
    }
}

/// The digit string `PRIME` is non-empty, all decimal, and denotes the group modulus.
pub proof fn lemma_prime_digits()
    ensures
        PRIME@.len() > 0,
        forall|i: int| 0 <= i < PRIME@.len() ==> '0' <= #[trigger] PRIME@[i] <= '9',
        decimal_value(PRIME@) == group_prime(),
{
    reveal_strlit("21888242871839275222246405745257275088696311157297823662689037894645226208583");
    assert(PRIME@ =~= seq!['2', '1', '8', '8', '8', '2', '4', '2', '8', '7', '1', '8', '3', '9', '2', '7', '5', '2', '2', '2', '2', '4', '6', '4', '0', '5', '7', '4', '5', '2', '5', '7', '2', '7', '5', '0', '8', '8', '6', '9', '6', '3', '1', '1', '1', '5', '7', '2', '9', '7', '8', '2', '3', '6', '6', '2', '6', '8', '9', '0', '3', '7', '8', '9', '4', '6', '4', '5', '2', '2', '6', '2', '0', '8', '5', '8', '3']);
    assert(PRIME@.take(0) =~= Seq::<char>::empty());
    lemma_prime_digits_0();
    lemma_prime_digits_1();
    lemma_prime_digits_2();
    lemma_prime_digits_3();
    assert(PRIME@.take(77) =~= PRIME@);
}

/// `c1^x` reduced modulo `p`: the shared secret that a ciphertext's first half yields under
/// the secret exponent `x`.
pub open spec fn shared_secret(p: nat, x: nat, c1: nat) -> nat {
    (pow(c1 as int, x) % (p as int)) as nat
}

/// The plaintext that decryption with secret exponent `x` recovers from `(c1, c2)`:
/// `c2 * s^(p-2) mod p`, where `s` is the shared secret.
pub open spec fn decrypted_value(p: nat, x: nat, c1: nat, c2: nat) -> nat {
    let s = shared_secret(p, x, c1);
    ((c2 * (pow(s as int, (p - 2) as nat) % (p as int))) % (p as int)) as nat
}

/// The ciphertext `(g^y mod p, m * h^y mod p)` of `m` under public exponent `h`, for the
/// ephemeral exponent `y`.
pub open spec fn encrypts_with(p: nat, g: nat, h: nat, m: nat, y: nat, c1: nat, c2: nat) -> bool {
    &&& c1 == pow(g as int, y) % (p as int)
    &&& c2 == (m * (pow(h as int, y) % (p as int))) % (p as int)
}

proof fn lemma_pow_of_reduced_pow(a: nat, b: nat, c: nat, p: nat)
    requires
        p > 0,
    ensures
        pow(pow(a as int, b) % (p as int), c) % (p as int) == pow(a as int, b * c) % (p as int),
{
    lemma_pow_mod_noop(pow(a as int, b), c, p as int);
    lemma_pow_multiplies(a as int, b, c);
}

/// Decryption undoes encryption in the group of the library's modulus: for every secret
/// exponent `x`, every ephemeral exponent `y` and every message `m < p`, decrypting the
/// ciphertext of `m` under the public exponent `2^x mod p` gives back `m`.
pub proof fn lemma_decryption_undoes_encryption(x: nat, y: nat, m: nat, c1: nat, c2: nat)
    requires
        m < group_prime(),
        encrypts_with(
            group_prime(),
            2,
            (pow(2, x) % (group_prime() as int)) as nat,
            m,
            y,
            c1,
            c2,
        ),
    ensures
        decrypted_value(group_prime(), x, c1, c2) == m,
{
    let p = group_prime();
    let pi = p as int;
    let h = (pow(2, x) % pi) as nat;
    let t = pow(2, x * y) % pi;
    // the shared secret seen by the decryptor equals the one the encryptor used
    lemma_pow_of_reduced_pow(2, y, x, p);
    lemma_mul_is_commutative(y as int, x as int);
    assert(shared_secret(p, x, c1) == t);
    lemma_pow_of_reduced_pow(2, x, y, p);
    assert(pow(h as int, y) % pi == t);
    assert(c2 == (m * t) % pi);
    let tn = t as nat;
    let inv = pow(t, (p - 2) as nat) % pi;
    // c2 * inv = m * t^(p-1) (mod p)
    lemma_mul_mod_noop_general(m * t, pow(t, (p - 2) as nat), pi);
    lemma_pow_adds(t, 1, (p - 2) as nat);
    lemma_pow1(t);
    assert((1 + (p - 2)) as nat == (p - 1) as nat);
    lemma_mul_is_associative(m as int, t, pow(t, (p - 2) as nat));
    assert(decrypted_value(p, x, c1, c2) == (m * pow(t, (p - 1) as nat)) % pi);
    // t^(p-1) = 2^(xy(p-1)) = (2^(p-1))^(xy) = 1 (mod p)
    lemma_pow_of_reduced_pow(2, x * y, (p - 1) as nat, p);
    lemma_mul_is_commutative((x * y) as int, (p - 1) as int);
    lemma_pow_multiplies(2, (p - 1) as nat, x * y);
    lemma_pow_mod_noop(pow(2, (p - 1) as nat), x * y, pi);
    lemma_two_has_order_dividing_p_minus_one();
    lemma1_pow(x * y);
    assert(pow(t, (p - 1) as nat) % pi == 1);
    lemma_mul_mod_noop_general(m as int, pow(t, (p - 1) as nat), pi);
    lemma_small_mod(m, p);
}

/// The group modulus is above `2^32` and below `256^32`.
pub proof fn lemma_prime_size()
    ensures
        0x1_0000_0000 < group_prime(),
        group_prime() < pow(256, 32),
{
    reveal_with_fuel(pow, 33);
    assert(pow(256, 32) == 115792089237316195423570985008687907853269984665640564039457584007913129639936int);
}

} // verus!
